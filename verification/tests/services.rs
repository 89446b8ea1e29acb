//! The watcher, the manager, the MAVLink camera, zenoh and the reconnect check.
use mavlink_camera_manager::helper::develop::{
    all_playing, chromedriver_arguments, get_difference_map, leak_message, webdriver_address,
    webrtc_frontend_url, CycleStep, ReconnectCheck, StepOutcome, Verdict, SESSION_CYCLES,
};
use mavlink_camera_manager::mavlink::mavlink_camera::{
    camera_capture_status, camera_information, camera_settings, camera_storage_information,
    heartbeat_message, heartbeat_turn, name_field, reply_to, video_stream_information, Beat,
    MavlinkCameraHandle, Received, Reply, ThreadState,
};
use mavlink_camera_manager::stream::endpoint::Endpoint;
use mavlink_camera_manager::stream::manager::{
    add_stream_and_start, get_stream_mavtype, remove_stream, start, start_default, streams,
    usable_streams, Manager, UnknownStream,
};
use mavlink_camera_manager::stream::types::{
    CaptureConfiguration, ExtendedConfiguration, FrameInterval, StreamBackend, StreamInformation,
    StreamStatus, StreamType, VideoAndStreamInformation, VideoCaptureConfiguration,
    VideoEncodeType, VideoSourceLocal, VideoSourceRemote, VideoSourceType, VideoStreamType,
};
use mavlink_camera_manager::stream::validation::{RtspServerConfig, ValidationError};
use mavlink_camera_manager::stream::watcher::{
    free_candidates, source_kind, InitialConsumer, Phase, SourceKind, Stream, Surroundings,
    WatchAction, WatchError, WatchEvent, WatchStep, Watcher,
};
use mavlink_camera_manager::text::{
    append_u64, comes_before, contains_text, join, same_text, starts_with,
};
use mavlink_camera_manager::zenoh::{
    apply, is_plain_name, load_config, secluded_config, session_settings,
};
use std::collections::HashMap;

fn rtsp_server() -> RtspServerConfig {
    RtspServerConfig {
        port: 8554,
        schemes: vec!["rtsp".to_string()],
    }
}

fn local_source(device_path: &str) -> VideoSourceType {
    VideoSourceType::Local(VideoSourceLocal {
        name: "camera".to_string(),
        device_path: device_path.to_string(),
    })
}

fn redirect_source() -> VideoSourceType {
    VideoSourceType::Redirect(VideoSourceRemote {
        name: "Redirect source".to_string(),
        source: "rtsp://10.0.0.9:554/live".to_string(),
    })
}

fn stream(name: &str, video_source: VideoSourceType) -> VideoAndStreamInformation {
    VideoAndStreamInformation {
        name: name.to_string(),
        stream_information: StreamInformation {
            endpoints: vec![Endpoint::parse("udp://192.168.2.1:5600").unwrap()],
            configuration: CaptureConfiguration::VIDEO(VideoCaptureConfiguration {
                encode: VideoEncodeType::H264,
                height: 720,
                width: 1280,
                frame_interval: FrameInterval {
                    numerator: 1,
                    denominator: 30,
                },
            }),
            extended_configuration: None,
        },
        video_source,
    }
}

#[test]
fn new_streams_start_with_a_consumer() {
    let mut information = stream("a", local_source("/dev/video0"));
    let made = Stream::try_new(&information, &rtsp_server()).ok().unwrap();
    assert_eq!(made.seed, "camera:/dev/video0");
    assert_eq!(made.initial_consumer, InitialConsumer::Released);
    information.stream_information.extended_configuration = Some(ExtendedConfiguration {
        disable_lazy: true,
        ..ExtendedConfiguration::default()
    });
    let made = Stream::try_new(&information, &rtsp_server()).ok().unwrap();
    assert_eq!(made.initial_consumer, InitialConsumer::Kept);
    information.stream_information.endpoints.clear();
    assert!(matches!(
        Stream::try_new(&information, &rtsp_server()),
        Err(ValidationError::Empty)
    ));
}

#[test]
fn redirections_are_captured_as_unknown_video() {
    let made = Stream::try_new(&stream("a", redirect_source()), &rtsp_server())
        .ok()
        .unwrap();
    assert_eq!(made.seed, "Redirect source:rtsp:/live");
    match &made.information.stream_information.configuration {
        CaptureConfiguration::VIDEO(video) => {
            assert!(matches!(&video.encode, VideoEncodeType::Unknown(t) if t == "Redirect stream"));
            assert_eq!((video.width, video.height), (0, 0));
        }
        CaptureConfiguration::REDIRECT(_) => panic!("not video"),
    }
}

const SECOND: u64 = 1_000_000_000;

fn found(phase: Phase, source: SourceKind, now_ns: u64) -> Surroundings {
    Surroundings {
        terminated: false,
        phase,
        now_ns,
        has_state: false,
        has_pipeline: false,
        is_running: true,
        source,
        has_endpoint: true,
    }
}

#[test]
fn waking_streams_are_built() {
    let mut watcher = Watcher::new(0);
    let mut surroundings = found(Phase::Waking, SourceKind::Other, 0);
    surroundings.has_state = true;
    assert_eq!(
        watcher.react(WatchEvent::Woken(surroundings)),
        [WatchAction::ReleaseStateAndWait, WatchAction::CreateState]
    );
    // Events of another step change nothing.
    assert!(watcher.react(WatchEvent::Idle { done: true }).is_empty());
    let created = WatchEvent::Created {
        built: true,
        has_rtsp: true,
        has_camera: false,
        extended: Some(ExtendedConfiguration::default()),
    };
    assert_eq!(
        watcher.react(created),
        [
            WatchAction::KeepRtsp,
            WatchAction::InstallState,
            WatchAction::CreateMavlinkCamera,
            WatchAction::GoRunning,
            WatchAction::ResetBackoff,
            WatchAction::ClearError,
        ]
    );
    assert!(watcher.has_persistent_rtsp);
    watcher.react(WatchEvent::Woken(surroundings));
    let again = WatchEvent::Created {
        built: true,
        has_rtsp: true,
        has_camera: false,
        extended: None,
    };
    assert_eq!(
        watcher.react(again),
        [
            WatchAction::InstallState,
            WatchAction::GoRunning,
            WatchAction::ResetBackoff,
            WatchAction::ClearError,
        ]
    );
}

#[test]
fn redirections_are_asked_what_they_send() {
    let mut watcher = Watcher::new(0);
    let surroundings = found(Phase::Waking, SourceKind::Redirect, 0);
    assert_eq!(
        watcher.react(WatchEvent::Woken(surroundings)),
        [WatchAction::ReadCaptureConfiguration]
    );
    assert_eq!(
        watcher.react(WatchEvent::CaptureConfiguration { found: false }),
        [
            WatchAction::SetError(WatchError::CaptureConfiguration),
            WatchAction::BackOff
        ]
    );
    watcher.react(WatchEvent::Woken(surroundings));
    assert_eq!(
        watcher.react(WatchEvent::CaptureConfiguration { found: true }),
        [
            WatchAction::ClearError,
            WatchAction::StoreCaptureConfiguration,
            WatchAction::CreateState,
        ]
    );
    let failed = WatchEvent::Created {
        built: false,
        has_rtsp: false,
        has_camera: false,
        extended: None,
    };
    assert_eq!(
        watcher.react(failed),
        [WatchAction::SetError(WatchError::NotBuilt), WatchAction::BackOff]
    );
    let mut without_url = surroundings;
    without_url.has_endpoint = false;
    assert_eq!(
        watcher.react(WatchEvent::Woken(without_url)),
        [WatchAction::FailNoUrl]
    );
    assert_eq!(watcher.step, WatchStep::Stopped);
}

#[test]
fn missing_devices_are_reported_less_and_less() {
    let mut watcher = Watcher::new(0);
    let mut now = 0;
    let mut reports = Vec::new();
    for _ in 0..400 {
        now += SECOND;
        watcher.react(WatchEvent::Woken(found(Phase::Waking, SourceKind::Local, now)));
        let actions = watcher.react(WatchEvent::Devices {
            found: false,
            now_ns: now,
        });
        if actions.len() == 2 {
            reports.push(now / SECOND);
        }
        assert_eq!(actions.last(), Some(&WatchAction::BackOff));
    }
    assert_eq!(reports, [1, 3, 7, 15, 31, 63, 123, 183, 243, 303, 363]);
    watcher.react(WatchEvent::Woken(found(Phase::Waking, SourceKind::Local, now)));
    assert_eq!(
        watcher.react(WatchEvent::Devices {
            found: true,
            now_ns: now
        }),
        [WatchAction::StoreSource, WatchAction::CreateState]
    );
}

#[test]
fn streams_go_idle_after_the_grace_period() {
    let mut watcher = Watcher::new(0);
    let draining = |now| WatchEvent::Woken(found(Phase::Draining, SourceKind::Other, now));
    assert!(watcher.react(draining(SECOND)).is_empty());
    assert!(watcher.react(draining(6 * SECOND - 1)).is_empty());
    // A consumer that came and left starts the period anew.
    watcher.react(WatchEvent::Woken(found(Phase::Running, SourceKind::Other, 6 * SECOND)));
    assert!(watcher.react(draining(7 * SECOND)).is_empty());
    assert_eq!(watcher.react(draining(12 * SECOND)), [WatchAction::TryIdle]);
    assert_eq!(
        watcher.react(WatchEvent::Idle { done: true }),
        [WatchAction::PreserveRtsp, WatchAction::ReleaseState]
    );
    assert!(watcher.react(draining(13 * SECOND)).is_empty());
    watcher.react(draining(18 * SECOND));
    assert!(watcher.react(WatchEvent::Idle { done: false }).is_empty());
}

#[test]
fn pipelines_that_stop_are_built_again() {
    let mut watcher = Watcher::new(0);
    let mut surroundings = found(Phase::Running, SourceKind::Other, 0);
    assert!(watcher.react(WatchEvent::Woken(surroundings)).is_empty());
    surroundings.is_running = false;
    assert_eq!(
        watcher.react(WatchEvent::Woken(surroundings)),
        [WatchAction::PreserveRtsp, WatchAction::BackOff]
    );
    surroundings.phase = Phase::Idle;
    assert!(watcher.react(WatchEvent::Woken(surroundings)).is_empty());
    surroundings.has_pipeline = true;
    assert_eq!(
        watcher.react(WatchEvent::Woken(surroundings)),
        [WatchAction::ReleaseState]
    );
    surroundings.terminated = true;
    assert_eq!(watcher.react(WatchEvent::Woken(surroundings)), [WatchAction::Stop]);
    assert!(watcher.react(WatchEvent::Woken(surroundings)).is_empty());
}

#[test]
fn errors_of_the_watcher_are_told_in_words() {
    assert_eq!(
        WatchError::CaptureConfiguration.message("id", "x"),
        "Failed getting CaptureConfiguration from endpoint. Error: x. Trying again soon..."
    );
    assert_eq!(
        WatchError::DeviceMissing { next_report_s: 4 }.message("id", "x"),
        "Failed to recreate the stream id: x. Is the device connected? Trying again each second until the success or stream is removed. Next report in 4s to reduce log size."
    );
    assert_eq!(
        WatchError::NotBuilt.message("id", "x"),
        "Failed to recreate the stream id: x. Trying again soon..."
    );
}

#[test]
fn running_streams_keep_their_devices() {
    let candidates = vec![local_source("/dev/video0"), local_source("/dev/video1")];
    let status = |device: &str, running: bool| StreamStatus {
        running,
        video_and_stream: stream("a", local_source(device)),
    };
    let free = free_candidates(
        &candidates,
        &vec![status("/dev/video0", true), status("/dev/video1", false)],
    );
    assert_eq!(free.len(), 1);
    assert!(free[0].same_source(&candidates[1]));
    assert_eq!(source_kind(&candidates[0]), SourceKind::Local);
    assert_eq!(source_kind(&redirect_source()), SourceKind::Redirect);
}

fn backend(allow_same_endpoints: bool, scheme: &str) -> StreamBackend {
    StreamBackend {
        running: false,
        allow_same_endpoints,
        scheme: scheme.to_string(),
    }
}

fn add(manager: &mut Manager, name: &str, stream_type: StreamType) {
    let conflicts = manager.streams.iter().map(|_| None).collect();
    let added = add_stream_and_start(
        manager,
        stream(name, local_source("/dev/video0")),
        &conflicts,
        Ok(stream_type),
    );
    assert!(added.is_ok());
}

#[test]
fn streams_are_added_and_removed() {
    let mut manager = Manager::default();
    add(&mut manager, "a", StreamType::UDP(backend(false, "udp")));
    add(&mut manager, "b", StreamType::REDIRECT(backend(true, "rtsp")));
    add(&mut manager, "a", StreamType::WEBRTC(backend(true, "webrtc")));
    assert_eq!(start(&manager), [0, 2]);
    manager.streams[0].stream_type.mut_inner().running = true;
    // What runs is not started again.
    assert_eq!(start(&manager), [2]);
    let statuses = streams(&manager);
    let shown: Vec<(&str, bool)> = statuses
        .iter()
        .map(|s| (s.video_and_stream.name.as_str(), s.running))
        .collect();
    assert_eq!(shown, [("a", true), ("b", false), ("a", false)]);

    let removed = remove_stream(&mut manager, "a").ok().unwrap();
    assert_eq!(removed.position, 0);
    let names: Vec<&str> = removed.settings.iter().map(|s| s.name.as_str()).collect();
    assert_eq!(names, ["b", "a"]);
    let error = remove_stream(&mut manager, "c").err().unwrap();
    assert_eq!(error, UnknownStream);
    assert_eq!(error.message(), "Identification does not match any stream.");
    assert_eq!(manager.streams.len(), 2);
}

#[test]
fn conflicts_and_failures_keep_a_stream_out() {
    let mut manager = Manager::default();
    add(&mut manager, "a", StreamType::UDP(backend(true, "udp")));
    add(&mut manager, "b", StreamType::RTSP(backend(false, "rtsp")));
    let conflict = |text: &str| Some(text.to_string());
    let mut try_add = |conflicts: Vec<Option<String>>, made: Result<StreamType, String>| {
        add_stream_and_start(
            &mut manager,
            stream("c", local_source("/dev/video0")),
            &conflicts,
            made,
        )
        .map(|added| added.settings.len())
    };
    assert_eq!(
        try_add(
            vec![conflict("x"), conflict("y")],
            Ok(StreamType::UDP(backend(false, "udp")))
        ),
        Err("y".to_string())
    );
    assert_eq!(
        try_add(vec![conflict("x"), None], Err("no backend".to_string())),
        Err("no backend".to_string())
    );
    assert_eq!(
        try_add(
            vec![conflict("x"), None],
            Ok(StreamType::UDP(backend(false, "udp")))
        ),
        Ok(3)
    );
}

#[test]
fn cameras_are_asked_for_where_mavlink_knows_the_stream() {
    let mut manager = Manager::default();
    let mut information = stream("a", local_source("/dev/video0"));
    information.stream_information.extended_configuration = Some(ExtendedConfiguration {
        thermal: true,
        ..ExtendedConfiguration::default()
    });
    let added = add_stream_and_start(
        &mut manager,
        information,
        &vec![],
        Ok(StreamType::RTSP(backend(false, "rtsp"))),
    )
    .ok()
    .unwrap();
    let camera = added.camera.unwrap();
    assert!(camera.thermal);
    assert_eq!(camera.stream_type, VideoStreamType::Rtsp);
    assert_eq!(camera.endpoint.text, "udp://192.168.2.1:5600");
    assert!(manager.streams[0].has_mavlink_camera);

    let redirect = |scheme: &str| get_stream_mavtype(&StreamType::REDIRECT(backend(true, scheme)));
    assert_eq!(redirect("rtsp"), Some(VideoStreamType::Rtsp));
    assert_eq!(redirect("mpegts"), Some(VideoStreamType::MpegTsH264));
    assert_eq!(redirect("tcpmpeg"), Some(VideoStreamType::TcpMpeg));
    assert_eq!(redirect("udp"), Some(VideoStreamType::RtpUdp));
    assert_eq!(redirect("http"), None);
    assert_eq!(
        get_stream_mavtype(&StreamType::UDP(backend(true, ""))),
        Some(VideoStreamType::RtpUdp)
    );
    assert_eq!(get_stream_mavtype(&StreamType::WEBRTC(backend(true, ""))), None);
}

#[test]
fn managers_start_from_their_settings() {
    let mut manager = Manager::default();
    add(&mut manager, "old", StreamType::UDP(backend(false, "udp")));
    let one = |name: &str| stream(name, local_source("/dev/video0"));
    let begun = start_default(&mut manager, vec![one("a"), one("b")], vec![one("d")]);
    assert!(manager.streams.is_empty());
    assert_eq!(begun.len(), 2);
    let usable = usable_streams(begun, &vec![false, true]);
    assert_eq!(usable.len(), 1);
    assert_eq!(usable[0].name, "b");
    let begun = start_default(&mut manager, vec![], vec![one("d")]);
    assert_eq!(begun[0].name, "d");
}

#[test]
fn beginning_skips_what_cannot_be_added() {
    let mut manager = Manager::default();
    let one = |name: &str| stream(name, local_source("/dev/video0"));
    let stored = ["a", "b", "c", "d", "e"].map(one).into_iter().collect();
    let begun = start_default(&mut manager, stored, vec![]);
    let usable = usable_streams(begun, &vec![true, false, true, true, true]);
    for information in usable {
        let made = match information.name.as_str() {
            "c" => Err("no backend".to_string()),
            _ => Ok(StreamType::UDP(backend(false, "udp"))),
        };
        let conflicts = manager
            .streams
            .iter()
            .map(|_| (information.name == "d").then(|| "conflict".to_string()))
            .collect();
        let expected = information.name == "a" || information.name == "e";
        let added = add_stream_and_start(&mut manager, information, &conflicts, made);
        assert_eq!(added.is_ok(), expected);
    }
    let names: Vec<&str> = manager
        .streams
        .iter()
        .map(|s| s.video_and_stream_information.name.as_str())
        .collect();
    assert_eq!(names, ["a", "e"]);
}

#[test]
fn hearts_beat_while_threads_live() {
    let handle = MavlinkCameraHandle::new();
    assert_eq!(
        handle.mavlink_camera_information.mavlink_connection_string,
        "udpout:0.0.0.0:14550"
    );
    let sender = handle.mavlink_camera_information.header();
    assert_eq!((sender.system_id, sender.component_id), (1, 100));
    let mut state = handle.heartbeat_state;
    assert_eq!(heartbeat_turn(&mut state), Beat::Send);
    state = ThreadState::RESTART;
    assert_eq!(heartbeat_turn(&mut state), Beat::Pause { seconds: 3 });
    assert_eq!(heartbeat_turn(&mut state), Beat::Send);
    state = handle.receive_message_state;
    assert_eq!(heartbeat_turn(&mut state), Beat::Skip);
    assert_eq!(state, ThreadState::ZOMBIE);
    state = ThreadState::DEAD;
    assert_eq!(heartbeat_turn(&mut state), Beat::End);
}

#[test]
fn five_requests_are_answered() {
    let reply = |command: u32| reply_to(Received::Command { command });
    assert_eq!(reply(521), Reply::CameraInformation);
    assert_eq!(reply(522), Reply::CameraSettings);
    assert_eq!(reply(525), Reply::StorageInformation);
    assert_eq!(reply(527), Reply::CaptureStatus);
    assert_eq!(reply(2504), Reply::VideoStreamInformation);
    assert_eq!(reply(400), Reply::IgnoreCommand);
    assert_eq!(reply_to(Received::Heartbeat), Reply::Silence);
    assert_eq!(reply_to(Received::Other), Reply::IgnoreMessage);
}

#[test]
fn messages_of_the_camera_are_filled_in() {
    let mut name = [0u8; 32];
    name[..4].copy_from_slice(b"name");
    assert_eq!(name_field("name"), name);
    assert_eq!(name_field(""), [0u8; 32]);
    let information = camera_information();
    assert_eq!(information.vendor_name, name);
    assert_eq!(information.model_name, name);
    assert_eq!(information.cam_definition_uri, "http://0.0.0.0");
    let video = video_stream_information();
    assert_eq!(video.uri, "udp:0.0.0.0:5601\0");
    assert_eq!((video.framerate, video.bitrate, video.stream_id), (30, 1000, 1));
    assert_eq!(video.stream_type, VideoStreamType::Rtsp);
    assert_eq!(video.flags, 1);
    assert_eq!(information.flags, 256);
    let heartbeat = heartbeat_message();
    assert_eq!(heartbeat.mavlink_version, 3);
    assert_eq!((heartbeat.mavtype, heartbeat.system_status), (30, 3));
    assert_eq!(camera_settings().zoom_level, 0);
    assert_eq!(camera_settings().mode_id, 1);
    assert_eq!(camera_storage_information().status, 2);
    assert_eq!(camera_storage_information().total_capacity, 102400);
    assert_eq!(camera_capture_status().available_capacity, 10000);
}

#[test]
fn differences_keep_what_is_new() {
    let map = |ids: &[u32]| {
        ids.iter()
            .map(|id| (*id, format!("thread {id}")))
            .collect::<HashMap<u32, String>>()
    };
    let new = get_difference_map(&map(&[1, 2, 3]), &map(&[2, 4]));
    assert_eq!(new, map(&[1, 3]));
    assert!(get_difference_map(&map(&[]), &map(&[1])).is_empty());
}

#[test]
fn undisturbed_checks_pass() {
    let mut check = ReconnectCheck::new(SESSION_CYCLES);
    let mut steps = Vec::new();
    while let Some(step) = check.next_step() {
        steps.push(step);
        check.report(StepOutcome::Done);
    }
    assert_eq!(check.verdict, Some(Verdict::Passed));
    assert_eq!(steps.len(), 66);
    let sessions = steps.iter().filter(|s| **s == CycleStep::AddSession).count();
    assert_eq!(sessions, 30);
    assert_eq!(steps[0], CycleStep::Snapshot);
    assert_eq!(steps[7], CycleStep::AwaitPlaying);
    assert_eq!(steps[8], CycleStep::RemoveConsumer);
    assert_eq!(steps[10], CycleStep::Report);
    assert_eq!(ReconnectCheck::new(-1).verdict, Some(Verdict::Passed));
}

#[test]
fn threads_that_stay_are_a_leak_after_the_first_cycle() {
    let mut check = ReconnectCheck::new(5);
    while let Some(step) = check.next_step() {
        check.report(if step == CycleStep::AwaitTasks {
            StepOutcome::TimedOut
        } else {
            StepOutcome::Done
        });
    }
    assert_eq!(check.verdict, Some(Verdict::Leaked { cycle: 1 }));
    assert_eq!(
        leak_message(1, "{}"),
        "Thread leak detected on cycle 1:\n{}"
    );
    let mut check = ReconnectCheck::new(5);
    while check.next_step() != Some(CycleStep::AwaitPlaying) {
        check.report(StepOutcome::Done);
    }
    check.report(StepOutcome::TimedOut);
    assert_eq!(check.verdict, Some(Verdict::Failed));
    let mut check = ReconnectCheck::new(5);
    check.report(StepOutcome::Failed);
    assert_eq!(check.verdict, Some(Verdict::Failed));
}

#[test]
fn the_browser_is_driven_from_this_machine() {
    let arguments = chromedriver_arguments(9515);
    assert_eq!(arguments.len(), 43);
    assert_eq!(arguments[0], "--port=9515");
    assert_eq!(arguments[1], "--allow-running-insecure-content");
    assert_eq!(arguments[42], "--use-mock-keychain");
    assert_eq!(webdriver_address(9515), "http://127.0.0.1:9515");
    assert_eq!(
        webrtc_frontend_url("0.0.0.0:6020"),
        "http://0.0.0.0:6020/webrtc"
    );
    assert!(all_playing(5));
    assert!(!all_playing(4));
}

#[test]
fn zenoh_sessions_are_configured() {
    let config = load_config(None, "manager").ok().unwrap();
    assert_eq!(config.get_json("mode").unwrap(), "\"client\"");
    assert!(config
        .get_json("connect/endpoints")
        .unwrap()
        .contains("tcp/127.0.0.1:7447"));
    assert_eq!(
        config.get_json("transport/link/tx/queue/size/real_time").unwrap(),
        "16"
    );
    assert_eq!(config.get_json("metadata").unwrap(), "{\"name\":\"manager\"}");

    let file = secluded_config().ok().unwrap();
    assert_eq!(file.get_json("mode").unwrap(), "\"peer\"");
    assert_eq!(file.get_json("scouting/multicast/enabled").unwrap(), "false");
    let config = load_config(Some(file), "manager").ok().unwrap();
    assert_eq!(config.get_json("mode").unwrap(), "\"peer\"");
    assert_eq!(config.get_json("metadata").unwrap(), "{\"name\":\"manager\"}");
}

#[test]
fn refused_settings_are_named() {
    assert_eq!(session_settings(true, "m").len(), 3);
    assert_eq!(session_settings(false, "m").len(), 5);
    // A quoted text ends with its line.
    let error = load_config(None, "two\nlines").err().unwrap();
    assert_eq!(error.key, "metadata");
    let settings = session_settings(true, "two\nlines");
    let config = secluded_config().ok().unwrap();
    assert_eq!(apply(config, &settings).err().unwrap().key, "metadata");

    assert!(is_plain_name("mavlink-camera-manager"));
    for name in ["a\"b", "a'b", "a\\b", "a[b", "a]b", "a{b", "a}b"] {
        assert!(!is_plain_name(name));
    }
}

#[test]
fn text_helpers_agree_with_the_standard_library() {
    let mut text = String::from("n=");
    append_u64(&mut text, u64::MAX);
    assert_eq!(text, format!("n={}", u64::MAX));
    let mut text = String::new();
    append_u64(&mut text, 0);
    assert_eq!(text, "0");
    assert!(same_text("a", "a") && !same_text("a", "b"));
    assert!(starts_with("rtspt", "rtsp") && !starts_with("rts", "rtsp"));
    assert!(comes_before("a", "ab") && comes_before("B", "a") && !comes_before("a", "a"));
    let list: Vec<String> = ["a", "b"].iter().map(|s| s.to_string()).collect();
    assert_eq!(join(&list, ", "), "a, b");
    assert_eq!(join(&vec![], ", "), "");
    assert!(contains_text(&list, "b") && !contains_text(&list, "c"));
}
