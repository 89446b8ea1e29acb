# MAVLink camera manager

Streams video from cameras over UDP, RTSP, WebRTC and zenoh, and announces the
streams to MAVLink ground stations.

- `src/` is the library. What it decides and computes is stated in contracts and
  proved with Verus: how pipelines are described, how sinks are attached to a
  running pipeline and taken off again, when a stream wakes, runs and goes idle,
  how a pipeline is found frozen and ended, how signalling messages are answered,
  and how session descriptions are adjusted.
- `app/` carries the decisions out with GStreamer, tokio, zenoh and MAVLink.
- `tests/` runs the library on concrete values.

Work that alternates with the outside world is written as a machine: the library
says which step comes next, the program carries it out and reports how it went.
The functions that call other crates (`url`, `uuid`, `webrtc-sdp`, `zenoh`) are
marked `external_body`, and their doc comments say what is taken on trust.
