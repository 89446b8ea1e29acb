//! The streams that are managed, and what is done to them as a whole.
use crate::stream::endpoint::Endpoint;
use crate::stream::types::{
    default_extended_configuration, InformationView, StreamStatus, StreamType,
    VideoAndStreamInformation, VideoSourceType, VideoStreamType,
};
use crate::text::same_text;
use vstd::prelude::*;

verus! {

/// A stream that is managed.
pub struct Stream {
    pub stream_type: StreamType,
    pub video_and_stream_information: VideoAndStreamInformation,
    /// The stream is announced by a MAVLink camera.
    pub has_mavlink_camera: bool,
}

/// The managed streams, in the order in which they were added.
pub struct Manager {
    pub streams: Vec<Stream>,
}

impl Default for Manager {
    fn default() -> (r: Manager)
        ensures
            r.streams@.len() == 0,
    {
        Manager { streams: Vec::new() }
    }
}

/// What the streams are, as it is written to the settings.
pub open spec fn settings_of(streams: Seq<Stream>) -> Seq<InformationView> {
    streams.map_values(|s: Stream| s.video_and_stream_information@)
}

pub open spec fn information_views(list: Seq<VideoAndStreamInformation>) -> Seq<InformationView> {
    list.map_values(|i: VideoAndStreamInformation| i@)
}

fn settings(streams: &Vec<Stream>) -> (r: Vec<VideoAndStreamInformation>)
    ensures
        information_views(r@) == settings_of(streams@),
{
    let mut r: Vec<VideoAndStreamInformation> = Vec::new();
    let mut i: usize = 0;
    while i < streams.len()
        invariant
            i <= streams.len(),
            r.len() == i,
            forall|j: int|
                0 <= j < i ==> (#[trigger] r@[j])@ == streams@[j].video_and_stream_information@,
        decreases streams.len() - i,
    {
        r.push(streams[i].video_and_stream_information.clone());
        i += 1;
    }
    assert(information_views(r@) =~= settings_of(streams@));
    r
}

/// Forgets all streams, and gives those to begin with: the ones of the settings,
/// or the default ones where the settings hold none. Those of them that are usable
/// are then added one after the other.
pub fn start_default(
    manager: &mut Manager,
    stored: Vec<VideoAndStreamInformation>,
    defaults: Vec<VideoAndStreamInformation>,
) -> (r: Vec<VideoAndStreamInformation>)
    ensures
        final(manager).streams@.len() == 0,
        r == (if stored@.len() == 0 {
            defaults
        } else {
            stored
        }),
{
    manager.streams.clear();
    if stored.is_empty() {
        defaults
    } else {
        stored
    }
}

/// Those of the streams whose source is valid, where `valid` says so of each.
pub open spec fn usable(
    list: Seq<VideoAndStreamInformation>,
    valid: Seq<bool>,
) -> Seq<VideoAndStreamInformation>
    decreases list.len(),
{
    if list.len() == 0 {
        list
    } else if valid.len() > 0 && valid[0] {
        seq![list[0]] + usable(list.skip(1), valid.skip(1))
    } else {
        usable(list.skip(1), valid.skip(1))
    }
}

/// Leaves out the streams whose source is not valid.
pub fn usable_streams(list: Vec<VideoAndStreamInformation>, valid: &Vec<bool>) -> (r: Vec<
    VideoAndStreamInformation,
>)
    requires
        valid@.len() == list@.len(),
    ensures
        r@ == usable(list@, valid@),
{
    let ghost all = list@;
    let mut rest = list;
    let mut r: Vec<VideoAndStreamInformation> = Vec::new();
    let mut i: usize = 0;
    proof {
        assert(all.skip(0) =~= all);
        assert(valid@.skip(0) =~= valid@);
        assert(r@ + usable(rest@, valid@.skip(0)) =~= usable(all, valid@));
    }
    while rest.len() > 0
        invariant
            valid@.len() == all.len(),
            i + rest@.len() == all.len(),
            r@ + usable(rest@, valid@.skip(i as int)) == usable(all, valid@),
        decreases rest.len(),
    {
        assert(i < valid.len());
        let ghost before = rest@;
        let ghost kept = r@;
        let first = rest.remove(0);
        assert(rest@ =~= before.skip(1));
        assert(valid@.skip(i as int).skip(1) =~= valid@.skip(i + 1));
        assert(valid@.skip(i as int)[0] == valid@[i as int]);
        if valid[i] {
            r.push(first);
            assert(kept + (seq![before[0]] + usable(rest@, valid@.skip(i + 1))) =~= r@ + usable(
                rest@,
                valid@.skip(i + 1),
            ));
        }
        i += 1;
    }
    assert(r@ + usable(rest@, valid@.skip(i as int)) =~= r@);
    r
}

/// The stream is not running and could be. Redirections are served elsewhere:
/// there is nothing to start.
pub open spec fn is_stopped(stream: Stream) -> bool {
    !(stream.stream_type is REDIRECT) && !stream.stream_type.backend().running
}

/// The positions of the streams to be started, below `n`.
pub open spec fn startable(streams: Seq<Stream>, n: int) -> Seq<usize>
    decreases n,
{
    if n <= 0 {
        Seq::empty()
    } else if is_stopped(streams[n - 1]) {
        startable(streams, n - 1).push((n - 1) as usize)
    } else {
        startable(streams, n - 1)
    }
}

/// The positions of the streams that are not running and are to be started, in
/// order.
pub fn start(manager: &Manager) -> (r: Vec<usize>)
    ensures
        r@ == startable(manager.streams@, manager.streams@.len() as int),
{
    let mut r: Vec<usize> = Vec::new();
    let mut i: usize = 0;
    while i < manager.streams.len()
        invariant
            i <= manager.streams.len(),
            r@ == startable(manager.streams@, i as int),
        decreases manager.streams.len() - i,
    {
        match &manager.streams[i].stream_type {
            StreamType::REDIRECT(_) => {},
            _ => {
                if !manager.streams[i].stream_type.inner().running {
                    r.push(i);
                }
            },
        }
        i += 1;
    }
    r
}

/// Every stream that is not running is started but the redirections, each of them
/// once, and no running one.
pub proof fn stopped_streams_are_started(streams: Seq<Stream>, n: int, i: usize)
    requires
        0 <= n <= streams.len() <= usize::MAX,
    ensures
        startable(streams, n).contains(i) <==> i < n && is_stopped(streams[i as int]),
        startable(streams, n).no_duplicates(),
    decreases n,
{
    if n > 0 {
        let rest = startable(streams, n - 1);
        let last = (n - 1) as usize;
        stopped_streams_are_started(streams, n - 1, i);
        stopped_streams_are_started(streams, n - 1, last);
        if is_stopped(streams[n - 1]) {
            let whole = rest.push(last);
            if rest.contains(i) {
                let j = rest.index_of(i);
                assert(whole[j] == i);
            }
            assert(whole[rest.len() as int] == last);
        }
    }
}

/// The streams and whether they run, in order.
pub fn streams(manager: &Manager) -> (r: Vec<StreamStatus>)
    ensures
        r@.len() == manager.streams@.len(),
        forall|i: int|
            #![trigger r@[i]]
            0 <= i < r@.len() ==> r@[i].running == manager.streams@[i].stream_type.backend().running
                && r@[i].video_and_stream@ == manager.streams@[i].video_and_stream_information@,
{
    let mut r: Vec<StreamStatus> = Vec::new();
    let mut i: usize = 0;
    while i < manager.streams.len()
        invariant
            i <= manager.streams.len(),
            r.len() == i,
            forall|j: int|
                #![trigger r@[j]]
                0 <= j < i ==> r@[j].running == manager.streams@[j].stream_type.backend().running
                    && r@[j].video_and_stream@
                    == manager.streams@[j].video_and_stream_information@,
        decreases manager.streams.len() - i,
    {
        r.push(
            StreamStatus {
                running: manager.streams[i].stream_type.inner().running,
                video_and_stream: manager.streams[i].video_and_stream_information.clone(),
            },
        );
        i += 1;
    }
    r
}

/// The first conflict with a stream that does not share its endpoints, from
/// position `i` on. `conflicts` says of each stream how the new one conflicts
/// with it.
pub open spec fn conflict_from(
    streams: Seq<Stream>,
    conflicts: Seq<Option<String>>,
    i: int,
) -> Option<Seq<char>>
    decreases streams.len() - i,
{
    if i < 0 || i >= streams.len() {
        None
    } else if !streams[i].stream_type.backend().allow_same_endpoints && conflicts[i] is Some {
        Some(conflicts[i]->0@)
    } else {
        conflict_from(streams, conflicts, i + 1)
    }
}

/// The conflict that keeps a stream from being added.
pub fn first_conflict(manager: &Manager, conflicts: &Vec<Option<String>>) -> (r: Option<String>)
    requires
        conflicts@.len() == manager.streams@.len(),
    ensures
        match conflict_from(manager.streams@, conflicts@, 0) {
            Some(text) => r is Some && r->0@ == text,
            None => r is None,
        },
{
    let mut i: usize = 0;
    while i < manager.streams.len()
        invariant
            i <= manager.streams.len(),
            conflicts@.len() == manager.streams@.len(),
            conflict_from(manager.streams@, conflicts@, 0) == conflict_from(
                manager.streams@,
                conflicts@,
                i as int,
            ),
        decreases manager.streams.len() - i,
    {
        if !manager.streams[i].stream_type.inner().allow_same_endpoints {
            if let Some(text) = &conflicts[i] {
                return Some(text.clone());
            }
        }
        i += 1;
    }
    None
}

/// How MAVLink names the kind of the stream, where it has a name for it.
pub open spec fn mavtype(stream_type: StreamType) -> Option<VideoStreamType> {
    match stream_type {
        StreamType::UDP(_) => Some(VideoStreamType::RtpUdp),
        StreamType::RTSP(_) => Some(VideoStreamType::Rtsp),
        StreamType::REDIRECT(redirect) => if redirect.scheme@ == "rtsp"@ {
            Some(VideoStreamType::Rtsp)
        } else if redirect.scheme@ == "mpegts"@ {
            Some(VideoStreamType::MpegTsH264)
        } else if redirect.scheme@ == "tcpmpeg"@ {
            Some(VideoStreamType::TcpMpeg)
        } else if redirect.scheme@ == "udp"@ {
            Some(VideoStreamType::RtpUdp)
        } else {
            None
        },
        StreamType::TCP(_) | StreamType::WEBRTC(_) => None,
    }
}

/// How MAVLink names the kind of the stream. It has no name for streams over TCP
/// or WebRTC; clients then go by the scheme of the endpoint.
pub fn get_stream_mavtype(stream_type: &StreamType) -> (r: Option<VideoStreamType>)
    ensures
        r == mavtype(*stream_type),
{
    match stream_type {
        StreamType::UDP(_) => Some(VideoStreamType::RtpUdp),
        StreamType::RTSP(_) => Some(VideoStreamType::Rtsp),
        StreamType::REDIRECT(redirect) => {
            let scheme = redirect.scheme.as_str();
            if same_text(scheme, "rtsp") {
                Some(VideoStreamType::Rtsp)
            } else if same_text(scheme, "mpegts") {
                Some(VideoStreamType::MpegTsH264)
            } else if same_text(scheme, "tcpmpeg") {
                Some(VideoStreamType::TcpMpeg)
            } else if same_text(scheme, "udp") {
                Some(VideoStreamType::RtpUdp)
            } else {
                None
            }
        },
        StreamType::TCP(_) => None,
        StreamType::WEBRTC(_) => None,
    }
}

/// The MAVLink camera that announces a stream.
pub struct CameraRequest {
    pub video_source: VideoSourceType,
    pub endpoint: Endpoint,
    pub stream_type: VideoStreamType,
    pub thermal: bool,
}

/// The camera is the one for that stream.
pub open spec fn is_camera_of(
    request: Option<CameraRequest>,
    stream_type: StreamType,
    information: InformationView,
) -> bool {
    match request {
        Some(camera) => {
            &&& mavtype(stream_type) == Some(camera.stream_type)
            &&& camera.video_source@ == information.source
            &&& camera.endpoint@ == information.endpoints[0]
            &&& camera.thermal == (match information.extended {
                Some(extended) => extended.thermal,
                None => default_extended_configuration().thermal,
            })
        },
        None => mavtype(stream_type) is None,
    }
}

/// What follows from adding a stream.
pub struct Addition {
    /// The camera to be set up before the stream is started.
    pub camera: Option<CameraRequest>,
    /// The settings to be stored.
    pub settings: Vec<VideoAndStreamInformation>,
}

fn camera_of(stream_type: &StreamType, information: &VideoAndStreamInformation) -> (r: Option<
    CameraRequest,
>)
    requires
        information@.endpoints.len() > 0,
    ensures
        is_camera_of(r, *stream_type, information@),
{
    match get_stream_mavtype(stream_type) {
        Some(kind) => {
            assert(information.stream_information.endpoints@.len() > 0);
            Some(
                CameraRequest {
                    video_source: information.video_source.clone(),
                    endpoint: information.stream_information.endpoints[0].clone(),
                    stream_type: kind,
                    thermal: match &information.stream_information.extended_configuration {
                        Some(extended) => extended.thermal,
                        None => false,
                    },
                },
            )
        },
        None => None,
    }
}

/// An attempt to add a stream: how it conflicts with each of those that are
/// managed, and the machinery that was made for it, or why it could not be.
#[verifier::ext_equal]
pub struct Attempt {
    pub information: VideoAndStreamInformation,
    pub conflicts: Seq<Option<String>>,
    pub backend: Result<StreamType, String>,
}

/// Nothing keeps the stream from being added.
pub open spec fn succeeds(streams: Seq<Stream>, attempt: Attempt) -> bool {
    conflict_from(streams, attempt.conflicts, 0) is None && attempt.backend is Ok
}

/// The streams after an attempt to add one.
pub open spec fn tried(streams: Seq<Stream>, attempt: Attempt) -> Seq<Stream> {
    if succeeds(streams, attempt) {
        streams.push(
            Stream {
                stream_type: attempt.backend->Ok_0,
                video_and_stream_information: attempt.information,
                has_mavlink_camera: mavtype(attempt.backend->Ok_0) is Some,
            },
        )
    } else {
        streams
    }
}

/// Adds a stream behind the others, unless it conflicts with one of them or its
/// machinery could not be made. `conflicts` says of each stream how the new one
/// conflicts with it; `backend` is the machinery, which is there only where the
/// stream has an endpoint. The stream is then to be started.
pub fn add_stream_and_start(
    manager: &mut Manager,
    video_and_stream_information: VideoAndStreamInformation,
    conflicts: &Vec<Option<String>>,
    backend: Result<StreamType, String>,
) -> (r: Result<Addition, String>)
    requires
        conflicts@.len() == old(manager).streams@.len(),
        backend is Ok ==> video_and_stream_information@.endpoints.len() > 0,
    ensures
        r is Err ==> *final(manager) == *old(manager),
        ({
            let attempt = Attempt {
                information: video_and_stream_information,
                conflicts: conflicts@,
                backend,
            };
            &&& r is Ok <==> succeeds(old(manager).streams@, attempt)
            &&& final(manager).streams@ == tried(old(manager).streams@, attempt)
        }),
        match conflict_from(old(manager).streams@, conflicts@, 0) {
            Some(text) => r is Err && r->Err_0@ == text,
            None => match backend {
                Err(text) => r is Err && r->Err_0@ == text@,
                Ok(stream_type) => {
                    &&& r is Ok
                    &&& is_camera_of(r->Ok_0.camera, stream_type, video_and_stream_information@)
                    &&& final(manager).streams@ == old(manager).streams@.push(
                        Stream {
                            stream_type,
                            video_and_stream_information,
                            has_mavlink_camera: mavtype(stream_type) is Some,
                        },
                    )
                    &&& information_views(r->Ok_0.settings@) == settings_of(
                        final(manager).streams@,
                    )
                },
            },
        },
{
    if let Some(text) = first_conflict(manager, conflicts) {
        return Err(text);
    }
    let stream_type = match backend {
        Ok(stream_type) => stream_type,
        Err(text) => {
            return Err(text);
        },
    };
    let camera = camera_of(&stream_type, &video_and_stream_information);
    manager.streams.push(
        Stream {
            stream_type,
            video_and_stream_information,
            has_mavlink_camera: camera.is_some(),
        },
    );
    Ok(Addition { camera, settings: settings(&manager.streams) })
}

/// The streams after attempts to add some, one after the other. What fails is
/// skipped.
pub open spec fn all_tried(streams: Seq<Stream>, attempts: Seq<Attempt>) -> Seq<Stream>
    decreases attempts.len(),
{
    if attempts.len() == 0 {
        streams
    } else {
        all_tried(tried(streams, attempts[0]), attempts.skip(1))
    }
}

/// Which of the attempts succeed, one after the other.
pub open spec fn successes(streams: Seq<Stream>, attempts: Seq<Attempt>) -> Seq<bool>
    decreases attempts.len(),
{
    if attempts.len() == 0 {
        Seq::empty()
    } else {
        seq![succeeds(streams, attempts[0])] + successes(
            tried(streams, attempts[0]),
            attempts.skip(1),
        )
    }
}

/// What the streams were added with.
pub open spec fn informations(streams: Seq<Stream>) -> Seq<VideoAndStreamInformation> {
    streams.map_values(|s: Stream| s.video_and_stream_information)
}

/// What the attempts were made with.
pub open spec fn attempted(attempts: Seq<Attempt>) -> Seq<VideoAndStreamInformation> {
    attempts.map_values(|a: Attempt| a.information)
}

proof fn what_succeeds_is_added(streams: Seq<Stream>, attempts: Seq<Attempt>)
    ensures
        informations(all_tried(streams, attempts)) == informations(streams) + usable(
            attempted(attempts),
            successes(streams, attempts),
        ),
    decreases attempts.len(),
{
    let good = successes(streams, attempts);
    if attempts.len() == 0 {
        assert(informations(streams) + usable(attempted(attempts), good) =~= informations(streams));
    } else {
        let after = tried(streams, attempts[0]);
        what_succeeds_is_added(after, attempts.skip(1));
        assert(attempted(attempts).skip(1) =~= attempted(attempts.skip(1)));
        assert(good.skip(1) =~= successes(after, attempts.skip(1)));
        let rest = usable(attempted(attempts.skip(1)), successes(after, attempts.skip(1)));
        if succeeds(streams, attempts[0]) {
            assert(informations(after) =~= informations(streams).push(attempts[0].information));
            assert(informations(after) + rest =~= informations(streams) + (seq![
                attempts[0].information,
            ] + rest));
        }
    }
}

/// Beginning anew, the managed streams end as those with a valid source whose
/// adding succeeded, in the order in which they were given; what fails keeps no
/// other out.
pub proof fn beginning_manages_what_can_be_added(
    list: Seq<VideoAndStreamInformation>,
    valid: Seq<bool>,
    attempts: Seq<Attempt>,
)
    requires
        attempted(attempts) == usable(list, valid),
    ensures
        ({
            let none = Seq::<Stream>::empty();
            informations(all_tried(none, attempts)) == usable(
                usable(list, valid),
                successes(none, attempts),
            )
        }),
{
    let none = Seq::<Stream>::empty();
    what_succeeds_is_added(none, attempts);
    assert(informations(all_tried(none, attempts)) =~= usable(
        usable(list, valid),
        successes(none, attempts),
    ));
}

/// The position of the first stream of that name, from position `i` on.
pub open spec fn named_from(streams: Seq<Stream>, name: Seq<char>, i: int) -> Option<int>
    decreases streams.len() - i,
{
    if i < 0 || i >= streams.len() {
        None
    } else if streams[i].video_and_stream_information.name@ == name {
        Some(i)
    } else {
        named_from(streams, name, i + 1)
    }
}

/// No stream has that name.
#[derive(Clone, Copy, Debug, PartialEq, Eq, Structural)]
pub struct UnknownStream;

impl UnknownStream {
    pub fn message(&self) -> (r: String)
        ensures
            r@ == "Identification does not match any stream."@,
    {
        "Identification does not match any stream.".to_owned()
    }
}

/// What follows from removing a stream.
pub struct Withdrawal {
    /// Where the stream was.
    pub position: usize,
    /// The settings to be stored.
    pub settings: Vec<VideoAndStreamInformation>,
}

/// Removes the first stream of that name.
pub fn remove_stream(manager: &mut Manager, stream_name: &str) -> (r: Result<
    Withdrawal,
    UnknownStream,
>)
    ensures
        match named_from(old(manager).streams@, stream_name@, 0) {
            Some(i) => {
                &&& final(manager).streams@ == old(manager).streams@.remove(i)
                &&& r is Ok
                &&& r->Ok_0.position == i
                &&& information_views(r->Ok_0.settings@) == settings_of(final(manager).streams@)
            },
            None => r == Err::<Withdrawal, UnknownStream>(UnknownStream)
                && *final(manager) == *old(manager),
        },
{
    let mut i: usize = 0;
    while i < manager.streams.len()
        invariant
            i <= manager.streams.len(),
            *manager == *old(manager),
            named_from(old(manager).streams@, stream_name@, 0) == named_from(
                old(manager).streams@,
                stream_name@,
                i as int,
            ),
        decreases manager.streams.len() - i,
    {
        if same_text(manager.streams[i].video_and_stream_information.name.as_str(), stream_name) {
            manager.streams.remove(i);
            return Ok(Withdrawal { position: i, settings: settings(&manager.streams) });
        }
        i += 1;
    }
    Err(UnknownStream)
}

proof fn names_in_front_count_first(streams: Seq<Stream>, stream: Stream, i: int)
    requires
        0 <= i <= streams.len(),
        named_from(streams, stream.video_and_stream_information.name@, i) is None,
    ensures
        named_from(streams.push(stream), stream.video_and_stream_information.name@, i) == Some(
            streams.len() as int,
        ),
    decreases streams.len() - i,
{
    if i < streams.len() {
        names_in_front_count_first(streams, stream, i + 1);
    }
}

/// Removing a stream that was just added under a name of its own gives the streams
/// back as they were.
pub proof fn removing_undoes_adding(streams: Seq<Stream>, stream: Stream)
    requires
        named_from(streams, stream.video_and_stream_information.name@, 0) is None,
    ensures
        ({
            let added = streams.push(stream);
            let found = named_from(added, stream.video_and_stream_information.name@, 0);
            found is Some && added.remove(found->0) == streams
        }),
{
    names_in_front_count_first(streams, stream, 0);
    assert(streams.push(stream).remove(streams.len() as int) =~= streams);
}

/// Where every stream shares its endpoints, no conflict keeps another out.
pub proof fn sharing_streams_never_conflict(
    streams: Seq<Stream>,
    conflicts: Seq<Option<String>>,
    i: int,
)
    requires
        0 <= i,
        forall|j: int|
            i <= j < streams.len() ==> (
            #[trigger] streams[j]).stream_type.backend().allow_same_endpoints,
    ensures
        conflict_from(streams, conflicts, i) is None,
    decreases streams.len() - i,
{
    if i < streams.len() {
        sharing_streams_never_conflict(streams, conflicts, i + 1);
    }
}

/// The positions that `start` gives are those of the streams that are no redirection
/// and do not run, in ascending order.
pub proof fn streams_are_started_in_order(streams: Seq<Stream>, n: int, k: int, l: int)
    requires
        0 <= n <= streams.len() <= usize::MAX,
    ensures
        ({
            let order = startable(streams, n);
            &&& 0 <= k < order.len() ==> order[k] < n && !(streams[order[k] as int].stream_type
                is REDIRECT) && !streams[order[k] as int].stream_type.backend().running
            &&& 0 <= k < l < order.len() ==> order[k] < order[l]
            &&& 0 <= k < n && !(streams[k].stream_type is REDIRECT)
                && !streams[k].stream_type.backend().running ==> order.contains(k as usize)
        }),
    decreases n,
{
    if n > 0 {
        let rest = startable(streams, n - 1);
        let order = startable(streams, n);
        streams_are_started_in_order(streams, n - 1, k, l);
        if is_stopped(streams[n - 1]) {
            assert(order[rest.len() as int] == n - 1);
            if 0 <= k < rest.len() && l == rest.len() {
                streams_are_started_in_order(streams, n - 1, k, k);
            }
            if rest.contains(k as usize) {
                let j = rest.index_of(k as usize);
                assert(order[j] == k as usize);
            }
        }
    }
}

/// What keeps a stream out is the first conflict with a stream that does not share its
/// endpoints; conflicts with those that do are passed over, and without another one
/// nothing keeps it out.
pub proof fn first_conflicts_count(
    streams: Seq<Stream>,
    conflicts: Seq<Option<String>>,
    i: int,
    k: int,
)
    requires
        0 <= i <= k <= streams.len(),
        forall|j: int|
            #![trigger streams[j]]
            i <= j < k ==> streams[j].stream_type.backend().allow_same_endpoints
                || conflicts[j] is None,
    ensures
        k == streams.len() ==> conflict_from(streams, conflicts, i) is None,
        k < streams.len() && !streams[k].stream_type.backend().allow_same_endpoints
            && conflicts[k] is Some ==> conflict_from(streams, conflicts, i) == Some(
            conflicts[k]->0@,
        ),
    decreases k - i,
{
    if i < k {
        assert(streams[i].stream_type.backend().allow_same_endpoints || conflicts[i] is None);
        first_conflicts_count(streams, conflicts, i + 1, k);
    }
}

/// A stream is found by its name, the first of that name where there are several; one
/// whose name nobody has is not found.
pub proof fn first_names_count(streams: Seq<Stream>, name: Seq<char>, i: int, k: int)
    requires
        0 <= i <= k <= streams.len(),
        forall|j: int|
            i <= j < k ==> (#[trigger] streams[j]).video_and_stream_information.name@ != name,
    ensures
        k == streams.len() ==> named_from(streams, name, i) is None,
        k < streams.len() && streams[k].video_and_stream_information.name@ == name ==> named_from(
            streams,
            name,
            i,
        ) == Some(k),
    decreases k - i,
{
    if i < k {
        assert(streams[i].video_and_stream_information.name@ != name);
        first_names_count(streams, name, i + 1, k);
    }
}

/// MAVLink knows streams over UDP and RTSP, and redirections by the scheme that they
/// point at: `udp`, `rtsp`, `mpegts` and `tcpmpeg`. It knows no others.
pub proof fn mavlink_knows_these_streams(stream_type: StreamType)
    ensures
        ({
            let kind = mavtype(stream_type);
            let redirect = stream_type is REDIRECT;
            let scheme = stream_type.backend().scheme@;
            &&& kind == Some(VideoStreamType::RtpUdp) <==> stream_type is UDP || (redirect
                && scheme == "udp"@)
            &&& kind == Some(VideoStreamType::Rtsp) <==> stream_type is RTSP || (redirect && scheme
                == "rtsp"@)
            &&& kind == Some(VideoStreamType::MpegTsH264) <==> redirect && scheme == "mpegts"@
            &&& kind == Some(VideoStreamType::TcpMpeg) <==> redirect && scheme == "tcpmpeg"@
        }),
{
    reveal_strlit("udp");
    reveal_strlit("rtsp");
    reveal_strlit("mpegts");
    reveal_strlit("tcpmpeg");
    assert("udp"@.len() == 3 && "rtsp"@.len() == 4 && "mpegts"@.len() == 6 && "tcpmpeg"@.len()
        == 7);
}

/// The camera that announces a stream is that of the stream: its source, its first
/// endpoint, its kind, and whether it shows temperatures. Only a stream that MAVLink
/// has no kind for is not announced.
pub proof fn cameras_announce_their_own_stream(
    request: Option<CameraRequest>,
    stream_type: StreamType,
    information: InformationView,
)
    requires
        is_camera_of(request, stream_type, information),
    ensures
        request is None <==> mavtype(stream_type) is None,
        request matches Some(camera) ==> {
            &&& mavtype(stream_type) == Some(camera.stream_type)
            &&& camera.video_source@ == information.source
            &&& camera.endpoint@ == information.endpoints[0]
            &&& camera.thermal <==> information.extended is Some && information.extended->0.thermal
        },
{
}

/// What is usable of a list are the streams with a valid source, in order: one more
/// stream at the front adds itself in front, where it is valid, and nothing otherwise.
pub proof fn valid_streams_are_usable(
    stream: VideoAndStreamInformation,
    is_valid: bool,
    list: Seq<VideoAndStreamInformation>,
    valid: Seq<bool>,
)
    requires
        list.len() == valid.len(),
    ensures
        ({
            let before = usable(list, valid);
            let after = usable(seq![stream] + list, seq![is_valid] + valid);
            &&& is_valid ==> after.len() == before.len() + 1 && after[0] == stream && after.skip(1)
                == before
            &&& !is_valid ==> after == before
        }),
        usable(Seq::empty(), Seq::empty()).len() == 0,
{
    let more = seq![stream] + list;
    let marks = seq![is_valid] + valid;
    assert(more.skip(1) =~= list);
    assert(marks.skip(1) =~= valid);
    assert(marks[0] == is_valid && more[0] == stream);
    if is_valid {
        assert((seq![stream] + usable(list, valid)).skip(1) =~= usable(list, valid));
    }
}

/// A stream is added, behind the others and as it was given, exactly where nothing
/// conflicts with it and its machinery was made; otherwise everything stays.
pub proof fn streams_are_added_behind_the_others(streams: Seq<Stream>, attempt: Attempt)
    ensures
        ({
            let after = tried(streams, attempt);
            let free = conflict_from(streams, attempt.conflicts, 0) is None;
            if free && attempt.backend is Ok {
                &&& after.len() == streams.len() + 1
                &&& after.drop_last() == streams
                &&& after.last().stream_type == attempt.backend->Ok_0
                &&& after.last().video_and_stream_information == attempt.information
                &&& after.last().has_mavlink_camera <==> mavtype(attempt.backend->Ok_0) is Some
            } else {
                after == streams
            }
        }),
{
    if succeeds(streams, attempt) {
        assert(tried(streams, attempt).drop_last() =~= streams);
    }
}

/// What is stored are the streams as they were given, one for one.
pub proof fn settings_are_the_streams(streams: Seq<Stream>, i: int)
    requires
        0 <= i < streams.len(),
    ensures
        settings_of(streams).len() == streams.len(),
        settings_of(streams)[i] == streams[i].video_and_stream_information@,
{
}

} // verus!
