//! What streams are made of: sources, configurations, endpoints and their kinds.
use vstd::prelude::*;

use crate::stream::endpoint::{clone_endpoints, endpoint_views, Endpoint, EndpointView};
use crate::text::same_text;
use crate::video::video_source_custom_pipeline::VideoSourceCustomPipeline;

verus! {

/// How video is encoded.
#[derive(Debug)]
pub enum VideoEncodeType {
    H264,
    H265,
    Mjpg,
    Nv12,
    Rgb,
    Yuyv,
    Unknown(String),
}

/// What a [`VideoEncodeType`] stands for.
pub enum EncodeView {
    H264,
    H265,
    Mjpg,
    Nv12,
    Rgb,
    Yuyv,
    Unknown(Seq<char>),
}

impl View for VideoEncodeType {
    type V = EncodeView;

    open spec fn view(&self) -> EncodeView {
        match self {
            VideoEncodeType::H264 => EncodeView::H264,
            VideoEncodeType::H265 => EncodeView::H265,
            VideoEncodeType::Mjpg => EncodeView::Mjpg,
            VideoEncodeType::Nv12 => EncodeView::Nv12,
            VideoEncodeType::Rgb => EncodeView::Rgb,
            VideoEncodeType::Yuyv => EncodeView::Yuyv,
            VideoEncodeType::Unknown(name) => EncodeView::Unknown(name@),
        }
    }
}

impl Clone for VideoEncodeType {
    fn clone(&self) -> (r: VideoEncodeType)
        ensures
            r@ == self@,
    {
        match self {
            VideoEncodeType::H264 => VideoEncodeType::H264,
            VideoEncodeType::H265 => VideoEncodeType::H265,
            VideoEncodeType::Mjpg => VideoEncodeType::Mjpg,
            VideoEncodeType::Nv12 => VideoEncodeType::Nv12,
            VideoEncodeType::Rgb => VideoEncodeType::Rgb,
            VideoEncodeType::Yuyv => VideoEncodeType::Yuyv,
            VideoEncodeType::Unknown(name) => VideoEncodeType::Unknown(name.clone()),
        }
    }
}

/// The duration of a frame: `numerator / denominator` seconds.
#[derive(Clone, Copy, Debug, PartialEq, Eq, Structural)]
pub struct FrameInterval {
    pub numerator: u32,
    pub denominator: u32,
}

/// How a device is asked to capture.
pub struct VideoCaptureConfiguration {
    pub encode: VideoEncodeType,
    pub height: u32,
    pub width: u32,
    pub frame_interval: FrameInterval,
}

/// A stream that is only pointed at, so that nothing is captured.
#[derive(Clone, Copy, Debug, PartialEq, Eq, Structural)]
pub struct RedirectCaptureConfiguration {}

pub enum CaptureConfiguration {
    VIDEO(VideoCaptureConfiguration),
    REDIRECT(RedirectCaptureConfiguration),
}

/// What a [`CaptureConfiguration`] stands for.
pub enum CaptureView {
    Video { encode: EncodeView, height: u32, width: u32, frame_interval: FrameInterval },
    Redirect,
}

impl View for CaptureConfiguration {
    type V = CaptureView;

    open spec fn view(&self) -> CaptureView {
        match self {
            CaptureConfiguration::VIDEO(c) => CaptureView::Video {
                encode: c.encode@,
                height: c.height,
                width: c.width,
                frame_interval: c.frame_interval,
            },
            CaptureConfiguration::REDIRECT(_) => CaptureView::Redirect,
        }
    }
}

impl Clone for CaptureConfiguration {
    fn clone(&self) -> (r: CaptureConfiguration)
        ensures
            r@ == self@,
    {
        match self {
            CaptureConfiguration::VIDEO(c) => CaptureConfiguration::VIDEO(
                VideoCaptureConfiguration {
                    encode: c.encode.clone(),
                    height: c.height,
                    width: c.width,
                    frame_interval: c.frame_interval,
                },
            ),
            CaptureConfiguration::REDIRECT(_) => CaptureConfiguration::REDIRECT(
                RedirectCaptureConfiguration {  },
            ),
        }
    }
}

/// Optional settings of a stream.
#[derive(Clone, Copy, Debug, PartialEq, Eq, Structural)]
pub struct ExtendedConfiguration {
    /// The stream shows temperatures.
    pub thermal: bool,
    /// Do not announce the stream over MAVLink.
    pub disable_mavlink: bool,
    /// Keep the pipeline running when nothing consumes the stream.
    pub disable_lazy: bool,
    /// Do not offer thumbnails.
    pub disable_thumbnails: bool,
    /// Do not publish over zenoh.
    pub disable_zenoh: bool,
}

impl Default for ExtendedConfiguration {
    fn default() -> (r: ExtendedConfiguration)
        ensures
            r == default_extended_configuration(),
    {
        ExtendedConfiguration {
            thermal: false,
            disable_mavlink: false,
            disable_lazy: false,
            disable_thumbnails: false,
            disable_zenoh: false,
        }
    }
}

pub open spec fn default_extended_configuration() -> ExtendedConfiguration {
    ExtendedConfiguration {
        thermal: false,
        disable_mavlink: false,
        disable_lazy: false,
        disable_thumbnails: false,
        disable_zenoh: false,
    }
}

/// Where a stream goes and how it is captured.
pub struct StreamInformation {
    pub endpoints: Vec<Endpoint>,
    pub configuration: CaptureConfiguration,
    pub extended_configuration: Option<ExtendedConfiguration>,
}

/// What a source made of other elements produces.
pub enum VideoSourceGstType {
    /// A test picture of the given pattern.
    Fake(String),
    /// Anything else, by its description.
    Other(String),
}

pub struct VideoSourceGst {
    pub name: String,
    pub source: VideoSourceGstType,
}

pub struct VideoSourceLocal {
    pub name: String,
    pub device_path: String,
}

/// A source that is reached under an address.
pub struct VideoSourceRemote {
    pub name: String,
    pub source: String,
}

/// Where video comes from.
pub enum VideoSourceType {
    Gst(VideoSourceGst),
    Local(VideoSourceLocal),
    Onvif(VideoSourceRemote),
    Redirect(VideoSourceRemote),
    CustomPipeline(VideoSourceCustomPipeline),
}

/// What a [`VideoSourceType`] stands for: its kind, its name and what it is
/// taken from.
pub enum SourceView {
    Fake(Seq<char>, Seq<char>),
    Gst(Seq<char>, Seq<char>),
    Local(Seq<char>, Seq<char>),
    Onvif(Seq<char>, Seq<char>),
    Redirect(Seq<char>, Seq<char>),
    CustomPipeline(Seq<char>, Seq<char>),
}

impl View for VideoSourceType {
    type V = SourceView;

    open spec fn view(&self) -> SourceView {
        match self {
            VideoSourceType::Gst(s) => match s.source {
                VideoSourceGstType::Fake(pattern) => SourceView::Fake(s.name@, pattern@),
                VideoSourceGstType::Other(description) => SourceView::Gst(s.name@, description@),
            },
            VideoSourceType::Local(s) => SourceView::Local(s.name@, s.device_path@),
            VideoSourceType::Onvif(s) => SourceView::Onvif(s.name@, s.source@),
            VideoSourceType::Redirect(s) => SourceView::Redirect(s.name@, s.source@),
            VideoSourceType::CustomPipeline(s) => SourceView::CustomPipeline(
                s.name@,
                s.description(),
            ),
        }
    }
}

impl VideoSourceType {
    /// Whether the source is only pointed at.
    pub fn is_redirect(&self) -> (r: bool)
        ensures
            r == (self@ is Redirect),
    {
        match self {
            VideoSourceType::Redirect(_) => true,
            _ => false,
        }
    }

    /// Whether two sources are of one kind and agree in name and origin.
    pub fn same_source(&self, other: &VideoSourceType) -> (r: bool)
        ensures
            r == (self@ == other@),
    {
        match (self, other) {
            (VideoSourceType::Gst(a), VideoSourceType::Gst(b)) => {
                same_text(a.name.as_str(), b.name.as_str()) && match (&a.source, &b.source) {
                    (VideoSourceGstType::Fake(x), VideoSourceGstType::Fake(y)) => same_text(
                        x.as_str(),
                        y.as_str(),
                    ),
                    (VideoSourceGstType::Other(x), VideoSourceGstType::Other(y)) => same_text(
                        x.as_str(),
                        y.as_str(),
                    ),
                    _ => false,
                }
            },
            (VideoSourceType::Local(a), VideoSourceType::Local(b)) => same_text(
                a.name.as_str(),
                b.name.as_str(),
            ) && same_text(a.device_path.as_str(), b.device_path.as_str()),
            (VideoSourceType::Onvif(a), VideoSourceType::Onvif(b)) => same_text(
                a.name.as_str(),
                b.name.as_str(),
            ) && same_text(a.source.as_str(), b.source.as_str()),
            (VideoSourceType::Redirect(a), VideoSourceType::Redirect(b)) => same_text(
                a.name.as_str(),
                b.name.as_str(),
            ) && same_text(a.source.as_str(), b.source.as_str()),
            (VideoSourceType::CustomPipeline(a), VideoSourceType::CustomPipeline(b)) => same_text(
                a.name.as_str(),
                b.name.as_str(),
            ) && same_text(a.source_string(), b.source_string()),
            _ => false,
        }
    }
}

impl Clone for VideoSourceType {
    fn clone(&self) -> (r: VideoSourceType)
        ensures
            r@ == self@,
    {
        match self {
            VideoSourceType::Gst(s) => VideoSourceType::Gst(
                VideoSourceGst {
                    name: s.name.clone(),
                    source: match &s.source {
                        VideoSourceGstType::Fake(pattern) => VideoSourceGstType::Fake(
                            pattern.clone(),
                        ),
                        VideoSourceGstType::Other(description) => VideoSourceGstType::Other(
                            description.clone(),
                        ),
                    },
                },
            ),
            VideoSourceType::Local(s) => VideoSourceType::Local(
                VideoSourceLocal { name: s.name.clone(), device_path: s.device_path.clone() },
            ),
            VideoSourceType::Onvif(s) => VideoSourceType::Onvif(
                VideoSourceRemote { name: s.name.clone(), source: s.source.clone() },
            ),
            VideoSourceType::Redirect(s) => VideoSourceType::Redirect(
                VideoSourceRemote { name: s.name.clone(), source: s.source.clone() },
            ),
            VideoSourceType::CustomPipeline(s) => VideoSourceType::CustomPipeline(s.clone()),
        }
    }
}

/// A stream: its name, where it goes and where it comes from.
pub struct VideoAndStreamInformation {
    pub name: String,
    pub stream_information: StreamInformation,
    pub video_source: VideoSourceType,
}

/// What a [`VideoAndStreamInformation`] stands for.
#[verifier::ext_equal]
pub struct InformationView {
    pub name: Seq<char>,
    pub endpoints: Seq<EndpointView>,
    pub configuration: CaptureView,
    pub extended: Option<ExtendedConfiguration>,
    pub source: SourceView,
}

impl View for VideoAndStreamInformation {
    type V = InformationView;

    open spec fn view(&self) -> InformationView {
        InformationView {
            name: self.name@,
            endpoints: endpoint_views(self.stream_information.endpoints@),
            configuration: self.stream_information.configuration@,
            extended: self.stream_information.extended_configuration,
            source: self.video_source@,
        }
    }
}

impl Clone for VideoAndStreamInformation {
    fn clone(&self) -> (r: VideoAndStreamInformation)
        ensures
            r@ == self@,
    {
        VideoAndStreamInformation {
            name: self.name.clone(),
            stream_information: StreamInformation {
                endpoints: clone_endpoints(&self.stream_information.endpoints),
                configuration: self.stream_information.configuration.clone(),
                extended_configuration: self.stream_information.extended_configuration,
            },
            video_source: self.video_source.clone(),
        }
    }
}

/// A stream and whether it is running.
pub struct StreamStatus {
    pub running: bool,
    pub video_and_stream: VideoAndStreamInformation,
}

/// What carries the video.
#[derive(Clone, Copy, Debug, PartialEq, Eq, Structural)]
pub enum TransportProtocolType {
    RTP,
    MPEGTS,
    MPEG,
}

/// What kind of address an endpoint is.
#[derive(Clone, Copy, Debug, PartialEq, Eq, Structural)]
pub enum EndpointType {
    UDP,
    TCP,
    RTSP,
    WebRTCLocal,
    WebRTCRemoteTurn,
    WebRTCRemoteStun,
    WebRTCRemoteSignalling,
}

/// The stream types that MAVLink knows.
#[derive(Clone, Copy, Debug, PartialEq, Eq, Structural)]
pub enum VideoStreamType {
    RtpUdp,
    Rtsp,
    MpegTsH264,
    TcpMpeg,
}

/// Why a scheme does not say what was asked.
#[derive(Clone, Copy, Debug, PartialEq, Eq, Structural)]
pub enum SchemeError {
    /// No protocol goes by that scheme.
    UnknownProtocol,
    /// The protocol is not carried over that kind of endpoint.
    Unsupported(TransportProtocolType, EndpointType),
}

pub open spec fn transport_of(scheme: Seq<char>) -> Result<TransportProtocolType, SchemeError> {
    if scheme == "udp"@ || scheme == "tcp"@ || scheme == "rtsp"@ || scheme == "webrtc"@ || scheme
        == "ws"@ || scheme == "turn"@ || scheme == "stun"@ {
        Ok(TransportProtocolType::RTP)
    } else if scheme == "mpegts"@ {
        Ok(TransportProtocolType::MPEGTS)
    } else if scheme == "tcpmpeg"@ {
        Ok(TransportProtocolType::MPEG)
    } else {
        Err(SchemeError::UnknownProtocol)
    }
}

pub open spec fn endpoint_type_of(scheme: Seq<char>) -> Result<EndpointType, SchemeError> {
    if scheme == "udp"@ || scheme == "mpegts"@ {
        Ok(EndpointType::UDP)
    } else if scheme == "tcp"@ || scheme == "tcpmpeg"@ {
        Ok(EndpointType::TCP)
    } else if scheme == "rtsp"@ {
        Ok(EndpointType::RTSP)
    } else if scheme == "turn"@ {
        Ok(EndpointType::WebRTCRemoteTurn)
    } else if scheme == "stun"@ {
        Ok(EndpointType::WebRTCRemoteStun)
    } else if scheme == "ws"@ {
        Ok(EndpointType::WebRTCRemoteSignalling)
    } else if scheme == "webrtc"@ {
        Ok(EndpointType::WebRTCLocal)
    } else {
        Err(SchemeError::UnknownProtocol)
    }
}

pub open spec fn stream_type_of(scheme: Seq<char>) -> Result<VideoStreamType, SchemeError> {
    match (transport_of(scheme), endpoint_type_of(scheme)) {
        (Ok(TransportProtocolType::RTP), Ok(EndpointType::UDP)) => Ok(VideoStreamType::RtpUdp),
        (Ok(TransportProtocolType::RTP), Ok(EndpointType::RTSP)) => Ok(VideoStreamType::Rtsp),
        (Ok(TransportProtocolType::MPEGTS), Ok(EndpointType::UDP)) => Ok(
            VideoStreamType::MpegTsH264,
        ),
        (Ok(TransportProtocolType::MPEG), Ok(EndpointType::TCP)) => Ok(VideoStreamType::TcpMpeg),
        (Ok(protocol), Ok(endpoint)) => Err(SchemeError::Unsupported(protocol, endpoint)),
        (Err(error), _) => Err(error),
        (_, Err(error)) => Err(error),
    }
}

/// Every scheme that has a transport protocol has an endpoint type, and the
/// other way round; `udp`, `rtsp`, `mpegts` and `tcpmpeg` alone name a stream
/// type.
pub proof fn schemes_are_known_to_both_tables(scheme: Seq<char>)
    ensures
        transport_of(scheme) is Ok <==> endpoint_type_of(scheme) is Ok,
        stream_type_of(scheme) is Ok <==> (scheme == "udp"@ || scheme == "rtsp"@ || scheme
            == "mpegts"@ || scheme == "tcpmpeg"@),
{
    reveal_strlit("udp");
    reveal_strlit("tcp");
    reveal_strlit("rtsp");
    reveal_strlit("webrtc");
    reveal_strlit("ws");
    reveal_strlit("turn");
    reveal_strlit("stun");
    reveal_strlit("mpegts");
    reveal_strlit("tcpmpeg");
    assert("udp"@[0] != "tcp"@[0] && "udp"@[0] != "rtsp"@[0]);
    assert("udp"@.len() != "tcpmpeg"@.len() && "tcp"@.len() != "tcpmpeg"@.len());
    assert("mpegts"@.len() != "tcpmpeg"@.len());
    assert("mpegts"@.len() != "webrtc"@.len() || "mpegts"@[0] != "webrtc"@[0]);
    assert("tcp"@ != "mpegts"@ && "ws"@ != "mpegts"@ && "turn"@ != "mpegts"@ && "stun"@
        != "mpegts"@);
}

/// What the scheme of a URL says about the stream behind it.
pub trait SchemeParser {
    spec fn scheme_text(&self) -> Seq<char>;

    fn transport_protocol(&self) -> (r: Result<TransportProtocolType, SchemeError>)
        ensures
            r == transport_of(self.scheme_text()),
    ;

    fn endpoint_type(&self) -> (r: Result<EndpointType, SchemeError>)
        ensures
            r == endpoint_type_of(self.scheme_text()),
    ;

    fn video_stream_type(&self) -> (r: Result<VideoStreamType, SchemeError>)
        ensures
            r == stream_type_of(self.scheme_text()),
    ;
}

impl SchemeParser for Endpoint {
    open spec fn scheme_text(&self) -> Seq<char> {
        self@.scheme
    }

    fn transport_protocol(&self) -> (r: Result<TransportProtocolType, SchemeError>) {
        if self.has_scheme("udp") || self.has_scheme("tcp") || self.has_scheme("rtsp")
            || self.has_scheme("webrtc") || self.has_scheme("ws") || self.has_scheme("turn")
            || self.has_scheme("stun") {
            Ok(TransportProtocolType::RTP)
        } else if self.has_scheme("mpegts") {
            Ok(TransportProtocolType::MPEGTS)
        } else if self.has_scheme("tcpmpeg") {
            Ok(TransportProtocolType::MPEG)
        } else {
            Err(SchemeError::UnknownProtocol)
        }
    }

    fn endpoint_type(&self) -> (r: Result<EndpointType, SchemeError>) {
        if self.has_scheme("udp") || self.has_scheme("mpegts") {
            Ok(EndpointType::UDP)
        } else if self.has_scheme("tcp") || self.has_scheme("tcpmpeg") {
            Ok(EndpointType::TCP)
        } else if self.has_scheme("rtsp") {
            Ok(EndpointType::RTSP)
        } else if self.has_scheme("turn") {
            Ok(EndpointType::WebRTCRemoteTurn)
        } else if self.has_scheme("stun") {
            Ok(EndpointType::WebRTCRemoteStun)
        } else if self.has_scheme("ws") {
            Ok(EndpointType::WebRTCRemoteSignalling)
        } else if self.has_scheme("webrtc") {
            Ok(EndpointType::WebRTCLocal)
        } else {
            Err(SchemeError::UnknownProtocol)
        }
    }

    fn video_stream_type(&self) -> (r: Result<VideoStreamType, SchemeError>) {
        match (self.transport_protocol(), self.endpoint_type()) {
            (Ok(TransportProtocolType::RTP), Ok(EndpointType::UDP)) => Ok(VideoStreamType::RtpUdp),
            (Ok(TransportProtocolType::RTP), Ok(EndpointType::RTSP)) => Ok(VideoStreamType::Rtsp),
            (Ok(TransportProtocolType::MPEGTS), Ok(EndpointType::UDP)) => Ok(
                VideoStreamType::MpegTsH264,
            ),
            (Ok(TransportProtocolType::MPEG), Ok(EndpointType::TCP)) => Ok(
                VideoStreamType::TcpMpeg,
            ),
            (Ok(protocol), Ok(endpoint)) => Err(SchemeError::Unsupported(protocol, endpoint)),
            (Err(error), _) => Err(error),
            (_, Err(error)) => Err(error),
        }
    }
}

impl SchemeError {
    /// The error in words, for an endpoint with the given scheme.
    pub fn message(&self, scheme: &str) -> (r: String)
        ensures
            r@ == scheme_error_text(*self, scheme@),
    {
        match self {
            SchemeError::UnknownProtocol => {
                let mut s = "Error: unknownw protocol \"".to_owned();
                s.append(scheme);
                s.append("\"");
                s
            },
            SchemeError::Unsupported(protocol, endpoint) => {
                let mut s = "Endpoint Type ".to_owned();
                s.append(endpoint.name());
                s.append(" not supported for Transfer Protocol ");
                s.append(protocol.name());
                s.append(".");
                s
            },
        }
    }
}

pub open spec fn scheme_error_text(error: SchemeError, scheme: Seq<char>) -> Seq<char> {
    match error {
        SchemeError::UnknownProtocol => "Error: unknownw protocol \""@ + scheme + "\""@,
        SchemeError::Unsupported(protocol, endpoint) => "Endpoint Type "@ + endpoint.name_text()
            + " not supported for Transfer Protocol "@ + protocol.name_text() + "."@,
    }
}

impl TransportProtocolType {
    pub open spec fn name_text(self) -> Seq<char> {
        match self {
            TransportProtocolType::RTP => "RTP"@,
            TransportProtocolType::MPEGTS => "MPEGTS"@,
            TransportProtocolType::MPEG => "MPEG"@,
        }
    }

    pub fn name(&self) -> (r: &'static str)
        ensures
            r@ == self.name_text(),
    {
        match self {
            TransportProtocolType::RTP => "RTP",
            TransportProtocolType::MPEGTS => "MPEGTS",
            TransportProtocolType::MPEG => "MPEG",
        }
    }
}

impl EndpointType {
    pub open spec fn name_text(self) -> Seq<char> {
        match self {
            EndpointType::UDP => "UDP"@,
            EndpointType::TCP => "TCP"@,
            EndpointType::RTSP => "RTSP"@,
            EndpointType::WebRTCLocal => "WebRTCLocal"@,
            EndpointType::WebRTCRemoteTurn => "WebRTCRemoteTurn"@,
            EndpointType::WebRTCRemoteStun => "WebRTCRemoteStun"@,
            EndpointType::WebRTCRemoteSignalling => "WebRTCRemoteSignalling"@,
        }
    }

    pub fn name(&self) -> (r: &'static str)
        ensures
            r@ == self.name_text(),
    {
        match self {
            EndpointType::UDP => "UDP",
            EndpointType::TCP => "TCP",
            EndpointType::RTSP => "RTSP",
            EndpointType::WebRTCLocal => "WebRTCLocal",
            EndpointType::WebRTCRemoteTurn => "WebRTCRemoteTurn",
            EndpointType::WebRTCRemoteStun => "WebRTCRemoteStun",
            EndpointType::WebRTCRemoteSignalling => "WebRTCRemoteSignalling",
        }
    }
}

/// What the manager knows of the machinery behind a stream.
pub struct StreamBackend {
    pub running: bool,
    /// Other streams may use the endpoints of this one.
    pub allow_same_endpoints: bool,
    /// The scheme of the endpoint that a redirection points at.
    pub scheme: String,
}

/// The kind of a stream, with its machinery.
pub enum StreamType {
    UDP(StreamBackend),
    TCP(StreamBackend),
    RTSP(StreamBackend),
    REDIRECT(StreamBackend),
    WEBRTC(StreamBackend),
}

impl StreamType {
    pub open spec fn backend(self) -> StreamBackend {
        match self {
            StreamType::UDP(backend) => backend,
            StreamType::TCP(backend) => backend,
            StreamType::RTSP(backend) => backend,
            StreamType::REDIRECT(backend) => backend,
            StreamType::WEBRTC(backend) => backend,
        }
    }

    /// The same kind of stream with other machinery.
    pub open spec fn with_backend(self, backend: StreamBackend) -> StreamType {
        match self {
            StreamType::UDP(_) => StreamType::UDP(backend),
            StreamType::TCP(_) => StreamType::TCP(backend),
            StreamType::RTSP(_) => StreamType::RTSP(backend),
            StreamType::REDIRECT(_) => StreamType::REDIRECT(backend),
            StreamType::WEBRTC(_) => StreamType::WEBRTC(backend),
        }
    }

    /// The machinery of the stream.
    pub fn inner(&self) -> (r: &StreamBackend)
        ensures
            *r == self.backend(),
    {
        match self {
            StreamType::UDP(backend) => backend,
            StreamType::TCP(backend) => backend,
            StreamType::RTSP(backend) => backend,
            StreamType::REDIRECT(backend) => backend,
            StreamType::WEBRTC(backend) => backend,
        }
    }

    /// The machinery of the stream, to be changed; the kind stays.
    pub fn mut_inner(&mut self) -> (r: &mut StreamBackend)
        ensures
            *r == old(self).backend(),
            *final(self) == old(self).with_backend(*final(r)),
    {
        match self {
            StreamType::UDP(backend) => backend,
            StreamType::TCP(backend) => backend,
            StreamType::RTSP(backend) => backend,
            StreamType::REDIRECT(backend) => backend,
            StreamType::WEBRTC(backend) => backend,
        }
    }
}

/// What each scheme says: `udp`, `tcp`, `rtsp`, `webrtc`, `ws`, `turn` and `stun`
/// carry RTP, `mpegts` carries MPEG-TS over UDP and `tcpmpeg` carries MPEG over TCP;
/// MAVLink has a stream type for RTP over UDP, for RTSP, and for the two MPEG ones.
pub proof fn schemes_say_how_video_is_carried(scheme: Seq<char>)
    ensures
        ({
            let transport = transport_of(scheme);
            let endpoint = endpoint_type_of(scheme);
            let stream = stream_type_of(scheme);
            &&& transport == Ok::<TransportProtocolType, SchemeError>(
                TransportProtocolType::MPEGTS,
            ) <==> scheme == "mpegts"@
            &&& transport == Ok::<TransportProtocolType, SchemeError>(
                TransportProtocolType::MPEG,
            ) <==> scheme == "tcpmpeg"@
            &&& transport == Ok::<TransportProtocolType, SchemeError>(TransportProtocolType::RTP)
                <==> scheme == "udp"@ || scheme == "tcp"@ || scheme == "rtsp"@ || scheme
                == "webrtc"@ || scheme == "ws"@ || scheme == "turn"@ || scheme == "stun"@
            &&& endpoint == Ok::<EndpointType, SchemeError>(EndpointType::UDP) <==> scheme == "udp"@
                || scheme == "mpegts"@
            &&& endpoint == Ok::<EndpointType, SchemeError>(EndpointType::TCP) <==> scheme == "tcp"@
                || scheme == "tcpmpeg"@
            &&& endpoint == Ok::<EndpointType, SchemeError>(EndpointType::RTSP) <==> scheme
                == "rtsp"@
            &&& endpoint == Ok::<EndpointType, SchemeError>(EndpointType::WebRTCRemoteTurn)
                <==> scheme == "turn"@
            &&& endpoint == Ok::<EndpointType, SchemeError>(EndpointType::WebRTCRemoteStun)
                <==> scheme == "stun"@
            &&& endpoint == Ok::<EndpointType, SchemeError>(EndpointType::WebRTCRemoteSignalling)
                <==> scheme == "ws"@
            &&& endpoint == Ok::<EndpointType, SchemeError>(EndpointType::WebRTCLocal) <==> scheme
                == "webrtc"@
            &&& stream == Ok::<VideoStreamType, SchemeError>(VideoStreamType::RtpUdp) <==> scheme
                == "udp"@
            &&& stream == Ok::<VideoStreamType, SchemeError>(VideoStreamType::Rtsp) <==> scheme
                == "rtsp"@
            &&& stream == Ok::<VideoStreamType, SchemeError>(VideoStreamType::MpegTsH264)
                <==> scheme == "mpegts"@
            &&& stream == Ok::<VideoStreamType, SchemeError>(VideoStreamType::TcpMpeg) <==> scheme
                == "tcpmpeg"@
            &&& stream is Err && stream->Err_0 is Unsupported <==> scheme == "tcp"@ || scheme
                == "webrtc"@ || scheme == "ws"@ || scheme == "turn"@ || scheme == "stun"@
            &&& stream is Err && stream->Err_0 is Unsupported ==> stream->Err_0
                == SchemeError::Unsupported(transport->Ok_0, endpoint->Ok_0)
        }),
{
    scheme_names_differ();
}

proof fn scheme_names_differ()
    ensures
        "udp"@ != "tcp"@ && "udp"@ != "rtsp"@ && "udp"@ != "webrtc"@ && "udp"@ != "ws"@ && "udp"@
            != "turn"@ && "udp"@ != "stun"@ && "udp"@ != "mpegts"@ && "udp"@ != "tcpmpeg"@,
        "tcp"@ != "rtsp"@ && "tcp"@ != "webrtc"@ && "tcp"@ != "ws"@ && "tcp"@ != "turn"@ && "tcp"@
            != "stun"@ && "tcp"@ != "mpegts"@ && "tcp"@ != "tcpmpeg"@,
        "rtsp"@ != "webrtc"@ && "rtsp"@ != "ws"@ && "rtsp"@ != "turn"@ && "rtsp"@ != "stun"@
            && "rtsp"@ != "mpegts"@ && "rtsp"@ != "tcpmpeg"@,
        "webrtc"@ != "ws"@ && "webrtc"@ != "turn"@ && "webrtc"@ != "stun"@ && "webrtc"@
            != "mpegts"@ && "webrtc"@ != "tcpmpeg"@,
        "ws"@ != "turn"@ && "ws"@ != "stun"@ && "ws"@ != "mpegts"@ && "ws"@ != "tcpmpeg"@,
        "turn"@ != "stun"@ && "turn"@ != "mpegts"@ && "turn"@ != "tcpmpeg"@,
        "stun"@ != "mpegts"@ && "stun"@ != "tcpmpeg"@,
        "mpegts"@ != "tcpmpeg"@,
{
    reveal_strlit("udp");
    reveal_strlit("tcp");
    reveal_strlit("rtsp");
    reveal_strlit("webrtc");
    reveal_strlit("ws");
    reveal_strlit("turn");
    reveal_strlit("stun");
    reveal_strlit("mpegts");
    reveal_strlit("tcpmpeg");
    assert("udp"@[0] == 'u' && "tcp"@[0] == 't' && "rtsp"@[0] == 'r' && "webrtc"@[0] == 'w'
        && "turn"@[0] == 't' && "stun"@[0] == 's' && "mpegts"@[0] == 'm');
    assert("udp"@.len() == 3 && "tcp"@.len() == 3 && "rtsp"@.len() == 4 && "webrtc"@.len() == 6
        && "ws"@.len() == 2 && "turn"@.len() == 4 && "stun"@.len() == 4 && "mpegts"@.len() == 6
        && "tcpmpeg"@.len() == 7);
}

/// The machinery of a stream can be exchanged without changing the kind of the
/// stream, and is then the one that was put in.
pub proof fn machinery_is_exchanged_in_place(stream: StreamType, backend: StreamBackend)
    ensures
        stream.with_backend(backend).backend() == backend,
        stream.with_backend(backend) is UDP <==> stream is UDP,
        stream.with_backend(backend) is TCP <==> stream is TCP,
        stream.with_backend(backend) is RTSP <==> stream is RTSP,
        stream.with_backend(backend) is REDIRECT <==> stream is REDIRECT,
        stream.with_backend(backend) is WEBRTC <==> stream is WEBRTC,
        stream.with_backend(stream.backend()) == stream,
{
}

/// Unless it is said otherwise a stream shows no temperatures, is announced, is lazy,
/// and offers thumbnails and zenoh.
pub proof fn nothing_is_switched_off_by_default()
    ensures
        ({
            let d = default_extended_configuration();
            !d.thermal && !d.disable_mavlink && !d.disable_lazy && !d.disable_thumbnails
                && !d.disable_zenoh
        }),
{
}

/// A capture is of the size, the rate and the encoding that its configuration has, and
/// a redirection of nothing.
pub proof fn captures_are_as_configured(capture: CaptureConfiguration)
    ensures
        capture matches CaptureConfiguration::VIDEO(c) ==> {
            &&& capture@ is Video
            &&& capture@->width == c.width && capture@->height == c.height
            &&& capture@->frame_interval == c.frame_interval
            &&& capture@->encode == c.encode@
        },
        capture is REDIRECT <==> capture@ == CaptureView::Redirect,
{
}

/// A source goes by its kind, its name and where it comes from.
pub proof fn sources_go_by_kind_name_and_origin(source: VideoSourceType)
    ensures
        source matches VideoSourceType::Gst(s) ==> {
            &&& s.source matches VideoSourceGstType::Fake(pattern) ==> source@ == SourceView::Fake(
                s.name@,
                pattern@,
            )
            &&& s.source matches VideoSourceGstType::Other(text) ==> source@ == SourceView::Gst(
                s.name@,
                text@,
            )
        },
        source matches VideoSourceType::Local(s) ==> source@ == SourceView::Local(
            s.name@,
            s.device_path@,
        ),
        source matches VideoSourceType::Onvif(s) ==> source@ == SourceView::Onvif(
            s.name@,
            s.source@,
        ),
        source matches VideoSourceType::Redirect(s) ==> source@ == SourceView::Redirect(
            s.name@,
            s.source@,
        ),
        source matches VideoSourceType::CustomPipeline(s) ==> source@
            == SourceView::CustomPipeline(s.name@, s.source->Pipeline_0@),
{
}

/// A stream has its name, its source, its capture and its settings, and its endpoints
/// in their order.
pub proof fn streams_have_what_they_are_given(stream: VideoAndStreamInformation, i: int)
    ensures
        stream@.name == stream.name@,
        stream@.source == stream.video_source@,
        stream@.configuration == stream.stream_information.configuration@,
        stream@.extended == stream.stream_information.extended_configuration,
        stream@.endpoints.len() == stream.stream_information.endpoints@.len(),
        0 <= i < stream@.endpoints.len() ==> {
            let endpoint = stream.stream_information.endpoints@[i];
            let shown = stream@.endpoints[i];
            &&& shown.scheme == endpoint.scheme@ && shown.path == endpoint.path@ && shown.text
                == endpoint.text@
            &&& shown.port == endpoint.port
            &&& shown.host is Some <==> endpoint.host is Some
            &&& endpoint.host is Some ==> shown.host->0 == endpoint.host->0@
        },
{
}

/// Encodings are told apart by their names, and only unknown ones by a text.
pub proof fn encodings_are_told_apart(encode: VideoEncodeType)
    ensures
        encode is H264 <==> encode@ is H264,
        encode is H265 <==> encode@ is H265,
        encode is Mjpg <==> encode@ is Mjpg,
        encode is Nv12 <==> encode@ is Nv12,
        encode is Rgb <==> encode@ is Rgb,
        encode is Yuyv <==> encode@ is Yuyv,
        encode matches VideoEncodeType::Unknown(name) ==> encode@ == EncodeView::Unknown(name@),
{
}

/// Protocols and endpoints go by their own names, and an error about a scheme is told
/// with the scheme, or with what does not go together.
pub proof fn scheme_errors_are_told_by_name(
    scheme: Seq<char>,
    protocol: TransportProtocolType,
    endpoint: EndpointType,
)
    ensures
        TransportProtocolType::RTP.name_text() == "RTP"@,
        TransportProtocolType::MPEGTS.name_text() == "MPEGTS"@,
        TransportProtocolType::MPEG.name_text() == "MPEG"@,
        EndpointType::UDP.name_text() == "UDP"@,
        EndpointType::TCP.name_text() == "TCP"@,
        EndpointType::RTSP.name_text() == "RTSP"@,
        EndpointType::WebRTCLocal.name_text() == "WebRTCLocal"@,
        EndpointType::WebRTCRemoteTurn.name_text() == "WebRTCRemoteTurn"@,
        EndpointType::WebRTCRemoteStun.name_text() == "WebRTCRemoteStun"@,
        EndpointType::WebRTCRemoteSignalling.name_text() == "WebRTCRemoteSignalling"@,
        scheme_error_text(SchemeError::UnknownProtocol, scheme) == "Error: unknownw protocol \""@
            + scheme + "\""@,
        scheme_error_text(SchemeError::Unsupported(protocol, endpoint), scheme)
            == "Endpoint Type "@ + endpoint.name_text() + " not supported for Transfer Protocol "@
            + protocol.name_text() + "."@,
{
}

} // verus!
