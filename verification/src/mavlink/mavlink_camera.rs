//! A camera that answers to MAVLink: what it says of itself, when its heart
//! beats and how it replies.
use vstd::prelude::*;

use crate::stream::types::VideoStreamType;

verus! {

/// The number by which MAVLink knows a first camera.
pub const CAMERA_COMPONENT_ID: u8 = 100;

/// `MAV_TYPE_CAMERA`.
pub const TYPE_CAMERA: u8 = 30;

/// `MAV_AUTOPILOT_GENERIC`.
pub const AUTOPILOT_GENERIC: u8 = 0;

/// `MAV_STATE_STANDBY`.
pub const STATE_STANDBY: u8 = 3;

/// `CAMERA_CAP_FLAGS_HAS_VIDEO_STREAM`.
pub const HAS_VIDEO_STREAM: u32 = 256;

/// `CAMERA_MODE_VIDEO`.
pub const MODE_VIDEO: u8 = 1;

/// `STORAGE_STATUS_READY`.
pub const STORAGE_READY: u8 = 2;

/// `VIDEO_STREAM_STATUS_FLAGS_RUNNING`.
pub const STREAM_RUNNING: u16 = 1;

/// `MAV_CMD_REQUEST_CAMERA_INFORMATION`.
pub const REQUEST_CAMERA_INFORMATION: u32 = 521;

/// `MAV_CMD_REQUEST_CAMERA_SETTINGS`.
pub const REQUEST_CAMERA_SETTINGS: u32 = 522;

/// `MAV_CMD_REQUEST_STORAGE_INFORMATION`.
pub const REQUEST_STORAGE_INFORMATION: u32 = 525;

/// `MAV_CMD_REQUEST_CAMERA_CAPTURE_STATUS`.
pub const REQUEST_CAMERA_CAPTURE_STATUS: u32 = 527;

/// `MAV_CMD_REQUEST_VIDEO_STREAM_INFORMATION`.
pub const REQUEST_VIDEO_STREAM_INFORMATION: u32 = 2504;

/// What MAVLink is told of the camera.
pub struct MavlinkCameraComponent {
    pub system_id: u8,
    pub component_id: u8,
    pub vendor_name: String,
    pub model_name: String,
    pub firmware_version: u32,
    pub resolution_h: u32,
    pub resolution_v: u32,
}

impl MavlinkCameraComponent {
    /// A camera of which nothing was said.
    pub open spec fn is_default(self) -> bool {
        &&& self.system_id == 1
        &&& self.component_id == CAMERA_COMPONENT_ID
        &&& self.vendor_name@ == ""@
        &&& self.model_name@ == ""@
        &&& self.firmware_version == 0
        &&& self.resolution_h == 0
        &&& self.resolution_v == 0
    }
}

impl Default for MavlinkCameraComponent {
    fn default() -> (r: MavlinkCameraComponent)
        ensures
            r.is_default(),
    {
        MavlinkCameraComponent {
            system_id: 1,
            component_id: CAMERA_COMPONENT_ID,
            vendor_name: "".to_owned(),
            model_name: "".to_owned(),
            firmware_version: 0,
            resolution_h: 0,
            resolution_v: 0,
        }
    }
}

/// The sender of a message.
#[derive(Clone, Copy, Debug, PartialEq, Eq, Structural)]
pub struct Sender {
    pub system_id: u8,
    pub component_id: u8,
}

/// The camera, how the vehicle is reached and where the video is.
pub struct MavlinkCameraInformation {
    pub component: MavlinkCameraComponent,
    pub mavlink_connection_string: String,
    pub video_stream_uri: String,
}

impl MavlinkCameraInformation {
    /// What is known of a camera that reaches its vehicle in that way and of which
    /// nothing else was said.
    pub open spec fn is_fresh(self, mavlink_connection_string: Seq<char>) -> bool {
        &&& self.mavlink_connection_string@ == mavlink_connection_string
        &&& self.video_stream_uri@
            == "rtsp://wowzaec2demo.streamlock.net:554/vod/mp4:BigBuckBunny_115k.mov"@
        &&& self.component.is_default()
    }

    pub fn new(mavlink_connection_string: &str) -> (r: MavlinkCameraInformation)
        ensures
            r.is_fresh(mavlink_connection_string@),
    {
        MavlinkCameraInformation {
            component: MavlinkCameraComponent::default(),
            mavlink_connection_string: mavlink_connection_string.to_owned(),
            video_stream_uri:
                "rtsp://wowzaec2demo.streamlock.net:554/vod/mp4:BigBuckBunny_115k.mov".to_owned(),
        }
    }

    pub open spec fn sender(self) -> Sender {
        Sender {
            system_id: self.component.system_id,
            component_id: self.component.component_id,
        }
    }

    /// The sender of every message of the camera.
    pub fn header(&self) -> (r: Sender)
        ensures
            r == self.sender(),
    {
        Sender {
            system_id: self.component.system_id,
            component_id: self.component.component_id,
        }
    }
}

/// What a thread of the camera is up to.
#[derive(Clone, Copy, Debug, PartialEq, Eq, Structural)]
pub enum ThreadState {
    DEAD,
    RUNNING,
    ZOMBIE,
    RESTART,
}

/// What the heartbeat thread does, one second after it did something last.
#[derive(Clone, Copy, Debug, PartialEq, Eq, Structural)]
pub enum Beat {
    /// Nothing.
    Skip,
    /// It ends.
    End,
    /// It sleeps for that many seconds.
    Pause { seconds: u64 },
    /// It sends a heartbeat.
    Send,
}

/// How long the heartbeat thread waits between two looks at its state.
pub const BEAT_INTERVAL_SECONDS: u64 = 1;

/// How long the heartbeat thread pauses when it restarts.
pub const RESTART_PAUSE_SECONDS: u64 = 3;

impl ThreadState {
    /// The state after the heartbeat thread has looked at it.
    pub open spec fn looked_at(self) -> ThreadState {
        if self == ThreadState::RESTART {
            ThreadState::RUNNING
        } else {
            self
        }
    }

    /// What the heartbeat thread does in that state.
    pub open spec fn beat(self) -> Beat {
        match self {
            ThreadState::ZOMBIE => Beat::Skip,
            ThreadState::DEAD => Beat::End,
            ThreadState::RESTART => Beat::Pause { seconds: RESTART_PAUSE_SECONDS },
            ThreadState::RUNNING => Beat::Send,
        }
    }
}

/// One turn of the heartbeat thread.
pub fn heartbeat_turn(state: &mut ThreadState) -> (r: Beat)
    ensures
        *final(state) == old(state).looked_at(),
        r == old(state).beat(),
{
    match *state {
        ThreadState::ZOMBIE => Beat::Skip,
        ThreadState::DEAD => Beat::End,
        ThreadState::RESTART => {
            *state = ThreadState::RUNNING;
            Beat::Pause { seconds: RESTART_PAUSE_SECONDS }
        },
        ThreadState::RUNNING => Beat::Send,
    }
}

/// A message that was received.
#[derive(Clone, Copy, Debug, PartialEq, Eq, Structural)]
pub enum Received {
    /// A command, by its number.
    Command { command: u32 },
    Heartbeat,
    Other,
}

/// What is sent in reply.
#[derive(Clone, Copy, Debug, PartialEq, Eq, Structural)]
pub enum Reply {
    CameraInformation,
    CameraSettings,
    StorageInformation,
    CaptureStatus,
    VideoStreamInformation,
    /// Nothing, and the command is worth a note.
    IgnoreCommand,
    /// Nothing, and the message is worth a note.
    IgnoreMessage,
    /// Nothing.
    Silence,
}

pub open spec fn reply_to_command(command: u32) -> Reply {
    if command == REQUEST_CAMERA_INFORMATION {
        Reply::CameraInformation
    } else if command == REQUEST_CAMERA_SETTINGS {
        Reply::CameraSettings
    } else if command == REQUEST_STORAGE_INFORMATION {
        Reply::StorageInformation
    } else if command == REQUEST_CAMERA_CAPTURE_STATUS {
        Reply::CaptureStatus
    } else if command == REQUEST_VIDEO_STREAM_INFORMATION {
        Reply::VideoStreamInformation
    } else {
        Reply::IgnoreCommand
    }
}

/// How the camera answers a message: to the five requests it knows with what was
/// asked for, to anything else with nothing.
pub fn reply_to(message: Received) -> (r: Reply)
    ensures
        r == (match message {
            Received::Command { command } => reply_to_command(command),
            Received::Heartbeat => Reply::Silence,
            Received::Other => Reply::IgnoreMessage,
        }),
{
    match message {
        Received::Command { command } => {
            if command == REQUEST_CAMERA_INFORMATION {
                Reply::CameraInformation
            } else if command == REQUEST_CAMERA_SETTINGS {
                Reply::CameraSettings
            } else if command == REQUEST_STORAGE_INFORMATION {
                Reply::StorageInformation
            } else if command == REQUEST_CAMERA_CAPTURE_STATUS {
                Reply::CaptureStatus
            } else if command == REQUEST_VIDEO_STREAM_INFORMATION {
                Reply::VideoStreamInformation
            } else {
                Reply::IgnoreCommand
            }
        },
        Received::Heartbeat => Reply::Silence,
        Received::Other => Reply::IgnoreMessage,
    }
}

/// The threads of a camera and what they work on.
pub struct MavlinkCameraHandle {
    pub mavlink_camera_information: MavlinkCameraInformation,
    pub heartbeat_state: ThreadState,
    pub receive_message_state: ThreadState,
}

impl MavlinkCameraHandle {
    pub fn new() -> (r: MavlinkCameraHandle)
        ensures
            r.mavlink_camera_information.is_fresh("udpout:0.0.0.0:14550"@),
            r.heartbeat_state == ThreadState::RUNNING,
            r.receive_message_state == ThreadState::ZOMBIE,
    {
        MavlinkCameraHandle {
            mavlink_camera_information: MavlinkCameraInformation::new("udpout:0.0.0.0:14550"),
            heartbeat_state: ThreadState::RUNNING,
            receive_message_state: ThreadState::ZOMBIE,
        }
    }
}

/// A name in a field of thirty-two bytes, filled up with zeros.
pub open spec fn name_bytes(name: Seq<char>) -> Seq<u8> {
    Seq::new(
        32,
        |i: int|
            if i < name.len() {
                name[i] as u8
            } else {
                0
            },
    )
}

/// Puts a name into a field of thirty-two bytes.
pub fn name_field(name: &str) -> (r: [u8; 32])
    requires
        name@.len() <= 32,
        forall|i: int| 0 <= i < name@.len() ==> (#[trigger] name@[i] as u32) < 128,
    ensures
        r@ == name_bytes(name@),
{
    let mut field: [u8; 32] = [0; 32];
    let n: usize = name.unicode_len();
    let mut i: usize = 0;
    while i < n
        invariant
            i <= n <= 32,
            n == name@.len(),
            forall|j: int| 0 <= j < name@.len() ==> (#[trigger] name@[j] as u32) < 128,
            forall|j: int| 0 <= j < i ==> #[trigger] field@[j] == name@[j] as u8,
            forall|j: int| i <= j < 32 ==> #[trigger] field@[j] == 0,
        decreases n - i,
    {
        field[i] = name.get_char(i) as u8;
        i += 1;
    }
    assert(field@ =~= name_bytes(name@));
    field
}

/// A heartbeat of the camera.
#[derive(Clone, Copy, Debug, PartialEq, Eq, Structural)]
pub struct HeartbeatMessage {
    pub custom_mode: u32,
    pub mavtype: u8,
    pub autopilot: u8,
    pub base_mode: u8,
    pub system_status: u8,
    pub mavlink_version: u8,
}

pub fn heartbeat_message() -> (r: HeartbeatMessage)
    ensures
        r == (HeartbeatMessage {
            custom_mode: 0,
            mavtype: TYPE_CAMERA,
            autopilot: AUTOPILOT_GENERIC,
            base_mode: 0,
            system_status: STATE_STANDBY,
            mavlink_version: 3,
        }),
{
    HeartbeatMessage {
        custom_mode: 0,
        mavtype: TYPE_CAMERA,
        autopilot: AUTOPILOT_GENERIC,
        base_mode: 0,
        system_status: STATE_STANDBY,
        mavlink_version: 3,
    }
}

/// What the camera says of itself. Lengths and sizes are whole numbers here.
pub struct CameraInformation {
    pub time_boot_ms: u32,
    pub firmware_version: u32,
    pub focal_length: u32,
    pub sensor_size_h: u32,
    pub sensor_size_v: u32,
    pub flags: u32,
    pub resolution_h: u16,
    pub resolution_v: u16,
    pub cam_definition_version: u16,
    pub vendor_name: [u8; 32],
    pub model_name: [u8; 32],
    pub lens_id: u8,
    pub cam_definition_uri: String,
}

pub fn camera_information() -> (r: CameraInformation)
    ensures
        r.time_boot_ms == 0,
        r.firmware_version == 0,
        r.focal_length == 0,
        r.sensor_size_h == 0,
        r.sensor_size_v == 0,
        r.flags == HAS_VIDEO_STREAM,
        r.resolution_h == 0,
        r.resolution_v == 0,
        r.cam_definition_version == 0,
        r.vendor_name@ == name_bytes("name"@),
        r.model_name@ == name_bytes("name"@),
        r.lens_id == 0,
        r.cam_definition_uri@ == "http://0.0.0.0"@,
{
    proof {
        reveal_strlit("name");
    }
    CameraInformation {
        time_boot_ms: 0,
        firmware_version: 0,
        focal_length: 0,
        sensor_size_h: 0,
        sensor_size_v: 0,
        flags: HAS_VIDEO_STREAM,
        resolution_h: 0,
        resolution_v: 0,
        cam_definition_version: 0,
        vendor_name: name_field("name"),
        model_name: name_field("name"),
        lens_id: 0,
        cam_definition_uri: "http://0.0.0.0".to_owned(),
    }
}

/// The settings of the camera. Levels are whole numbers here.
#[derive(Clone, Copy, Debug, PartialEq, Eq, Structural)]
pub struct CameraSettings {
    pub time_boot_ms: u32,
    pub zoom_level: u32,
    pub focus_level: u32,
    pub mode_id: u8,
}

pub fn camera_settings() -> (r: CameraSettings)
    ensures
        r == (CameraSettings {
            time_boot_ms: 0,
            zoom_level: 0,
            focus_level: 0,
            mode_id: MODE_VIDEO,
        }),
{
    CameraSettings { time_boot_ms: 0, zoom_level: 0, focus_level: 0, mode_id: MODE_VIDEO }
}

/// The storage of the camera. Capacities are in mebibytes, speeds
/// in mebibytes a second.
#[derive(Clone, Copy, Debug, PartialEq, Eq, Structural)]
pub struct StorageInformation {
    pub time_boot_ms: u32,
    pub total_capacity: u32,
    pub used_capacity: u32,
    pub available_capacity: u32,
    pub read_speed: u32,
    pub write_speed: u32,
    pub storage_id: u8,
    pub storage_count: u8,
    pub status: u8,
}

pub fn camera_storage_information() -> (r: StorageInformation)
    ensures
        r == (StorageInformation {
            time_boot_ms: 0,
            total_capacity: 102400,
            used_capacity: 0,
            available_capacity: 102400,
            read_speed: 1000,
            write_speed: 1000,
            storage_id: 0,
            storage_count: 0,
            status: STORAGE_READY,
        }),
{
    StorageInformation {
        time_boot_ms: 0,
        total_capacity: 102400,
        used_capacity: 0,
        available_capacity: 102400,
        read_speed: 1000,
        write_speed: 1000,
        storage_id: 0,
        storage_count: 0,
        status: STORAGE_READY,
    }
}

/// What the camera is capturing.
#[derive(Clone, Copy, Debug, PartialEq, Eq, Structural)]
pub struct CaptureStatus {
    pub time_boot_ms: u32,
    pub image_interval: u32,
    pub recording_time_ms: u32,
    pub available_capacity: u32,
    pub image_status: u8,
    pub video_status: u8,
    pub image_count: i32,
}

pub fn camera_capture_status() -> (r: CaptureStatus)
    ensures
        r == (CaptureStatus {
            time_boot_ms: 0,
            image_interval: 0,
            recording_time_ms: 0,
            available_capacity: 10000,
            image_status: 0,
            video_status: 0,
            image_count: 0,
        }),
{
    CaptureStatus {
        time_boot_ms: 0,
        image_interval: 0,
        recording_time_ms: 0,
        available_capacity: 10000,
        image_status: 0,
        video_status: 0,
        image_count: 0,
    }
}

/// The video stream of the camera. Its frame rate is a whole number here.
pub struct VideoStreamInformation {
    pub framerate: u32,
    pub bitrate: u32,
    pub flags: u16,
    pub resolution_h: u16,
    pub resolution_v: u16,
    pub rotation: u16,
    pub hfov: u16,
    pub stream_id: u8,
    pub count: u8,
    pub stream_type: VideoStreamType,
    pub name: [u8; 32],
    pub uri: String,
}

/// The video stream. Its number is one: zero would be everybody's. The address
/// ends in a zero.
pub fn video_stream_information() -> (r: VideoStreamInformation)
    ensures
        r.framerate == 30,
        r.bitrate == 1000,
        r.flags == STREAM_RUNNING,
        r.resolution_h == 1000,
        r.resolution_v == 1000,
        r.rotation == 0,
        r.hfov == 0,
        r.stream_id == 1,
        r.count == 0,
        r.stream_type == VideoStreamType::Rtsp,
        r.name@ == name_bytes("name"@),
        r.uri@ == "udp:0.0.0.0:5601"@.push('\0'),
{
    proof {
        reveal_strlit("name");
    }
    let mut uri = "udp:0.0.0.0:5601".to_owned();
    uri.push('\0');
    VideoStreamInformation {
        framerate: 30,
        bitrate: 1000,
        flags: STREAM_RUNNING,
        resolution_h: 1000,
        resolution_v: 1000,
        rotation: 0,
        hfov: 0,
        stream_id: 1,
        count: 0,
        stream_type: VideoStreamType::Rtsp,
        name: name_field("name"),
        uri,
    }
}

/// The state after that many turns of the heartbeat thread.
pub open spec fn after_turns(state: ThreadState, turns: nat) -> ThreadState
    decreases turns,
{
    if turns == 0 {
        state
    } else {
        after_turns(state, (turns - 1) as nat).looked_at()
    }
}

/// A dead thread stays dead and a zombie stays one: neither sends a heartbeat,
/// whatever the number of turns.
pub proof fn only_the_living_beat(state: ThreadState, turns: nat)
    ensures
        state == ThreadState::DEAD ==> after_turns(state, turns).beat() == Beat::End,
        state == ThreadState::ZOMBIE ==> after_turns(state, turns).beat() == Beat::Skip,
    decreases turns,
{
    if turns > 0 {
        only_the_living_beat(state, (turns - 1) as nat);
    }
}

/// A thread that restarts pauses once, and beats in every turn from then on.
pub proof fn restarting_pauses_once(turns: nat)
    ensures
        ThreadState::RESTART.beat() == (Beat::Pause { seconds: RESTART_PAUSE_SECONDS }),
        turns > 0 ==> after_turns(ThreadState::RESTART, turns).beat() == Beat::Send,
    decreases turns,
{
    if turns > 1 {
        restarting_pauses_once((turns - 1) as nat);
    }
    if turns == 1 {
        assert(after_turns(ThreadState::RESTART, 0) == ThreadState::RESTART);
    }
}

/// The camera answers the five requests that it knows, by their MAVLink numbers, each
/// with what was asked for, and no other command.
pub proof fn requests_are_answered_with_what_was_asked(command: u32)
    ensures
        reply_to_command(command) == Reply::CameraInformation <==> command == 521,
        reply_to_command(command) == Reply::CameraSettings <==> command == 522,
        reply_to_command(command) == Reply::StorageInformation <==> command == 525,
        reply_to_command(command) == Reply::CaptureStatus <==> command == 527,
        reply_to_command(command) == Reply::VideoStreamInformation <==> command == 2504,
        reply_to_command(command) == Reply::IgnoreCommand <==> command != 521 && command != 522
            && command != 525 && command != 527 && command != 2504,
{
}

/// A heart beats exactly where its thread runs, the thread ends exactly where it is
/// dead, and pauses for three seconds where it restarts, after which it runs. Looking
/// at a thread changes nothing else.
pub proof fn hearts_beat_where_threads_run(state: ThreadState)
    ensures
        state.beat() == Beat::Send <==> state == ThreadState::RUNNING,
        state.beat() == Beat::End <==> state == ThreadState::DEAD,
        state.beat() == Beat::Skip <==> state == ThreadState::ZOMBIE,
        state.beat() == (Beat::Pause { seconds: 3 }) <==> state == ThreadState::RESTART,
        state == ThreadState::RESTART ==> state.looked_at() == ThreadState::RUNNING,
        state != ThreadState::RESTART ==> state.looked_at() == state,
        state.looked_at().looked_at() == state.looked_at(),
{
}

/// A name stands at the front of its field, letter by letter, and zeros fill the rest.
pub proof fn names_stand_at_the_front(name: Seq<char>, i: int)
    requires
        0 <= i < 32,
    ensures
        name_bytes(name).len() == 32,
        i < name.len() ==> name_bytes(name)[i] == name[i] as u8,
        i >= name.len() ==> name_bytes(name)[i] == 0,
{
}

/// Every message of a camera comes from its own system and component.
pub proof fn cameras_sign_as_themselves(information: MavlinkCameraInformation)
    ensures
        information.sender().system_id == information.component.system_id,
        information.sender().component_id == information.component.component_id,
        information.component.is_default() ==> information.sender() == (Sender {
            system_id: 1,
            component_id: 100,
        }),
{
}

} // verus!
