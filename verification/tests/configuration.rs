//! The environment, endpoints, stream types, validation and building.
use mavlink_camera_manager::stream::debug_env::{
    allow_udp_rtsp_concurrent, b1_queue_sizing, disable_mcap, disable_thumbnail, disable_udp,
    disable_webrtc, queue_after_payloader, queue_at_v4l2src, queue_before_payloader,
    queue_per_sink_branch, queue_sizing_large, udp_decoupler, webrtc_decoupler, zenoh_decoupler,
    Environment, UdpDecoupler,
};
use mavlink_camera_manager::stream::element::PropertyValue;
use mavlink_camera_manager::stream::endpoint::{pipeline_seed, seed_of, without_address, Endpoint};
use mavlink_camera_manager::stream::instrumentation::{
    make_b1_queue, probe_of, DropCounter, DropWindow, Probe,
};
use mavlink_camera_manager::stream::stream_state::{
    build_plan, sink_failure_message, BuildAction, BuildSettings, Failure, Refusal, SinkKind,
    StreamState,
};
use mavlink_camera_manager::stream::types::{
    CaptureConfiguration, EndpointType, ExtendedConfiguration, FrameInterval,
    RedirectCaptureConfiguration, SchemeError, SchemeParser, StreamBackend, StreamInformation,
    StreamType, TransportProtocolType, VideoAndStreamInformation, VideoCaptureConfiguration,
    VideoEncodeType, VideoSourceLocal, VideoSourceRemote, VideoSourceType, VideoStreamType,
};
use mavlink_camera_manager::stream::validation::{
    validate_endpoints, EndpointProblem, RtspServerConfig, ShownEndpoint, ValidationError,
};
use mavlink_camera_manager::stream::video_stream_custom_pipeline::VideoStreamCustomPipeline;
use mavlink_camera_manager::video::video_source_custom_pipeline::{
    NoControls, VideoSourceCustomPipeline, VideoSourceCustomPipelineType,
};

fn environment(vars: &[(&str, &str)]) -> Environment {
    Environment {
        vars: vars
            .iter()
            .map(|(name, value)| (name.to_string(), value.to_string()))
            .collect(),
    }
}

fn rtsp_server() -> RtspServerConfig {
    RtspServerConfig {
        port: 8554,
        schemes: ["rtsp", "rtspu", "rtspt", "rtsph"]
            .iter()
            .map(|scheme| scheme.to_string())
            .collect(),
    }
}

fn local_source() -> VideoSourceType {
    VideoSourceType::Local(VideoSourceLocal {
        name: "camera".to_string(),
        device_path: "/dev/video0".to_string(),
    })
}

fn redirect_source() -> VideoSourceType {
    VideoSourceType::Redirect(VideoSourceRemote {
        name: "Redirect source".to_string(),
        source: "Redirect".to_string(),
    })
}

fn information(
    endpoints: &[&str],
    encode: VideoEncodeType,
    video_source: VideoSourceType,
) -> VideoAndStreamInformation {
    VideoAndStreamInformation {
        name: "stream".to_string(),
        stream_information: StreamInformation {
            endpoints: endpoints
                .iter()
                .map(|endpoint| Endpoint::parse(endpoint).unwrap())
                .collect(),
            configuration: CaptureConfiguration::VIDEO(VideoCaptureConfiguration {
                encode,
                height: 1080,
                width: 1920,
                frame_interval: FrameInterval {
                    numerator: 1,
                    denominator: 30,
                },
            }),
            extended_configuration: None,
        },
        video_source,
    }
}

fn problems(information: &VideoAndStreamInformation) -> Vec<(usize, EndpointProblem)> {
    match validate_endpoints(information, &rtsp_server()) {
        Err(ValidationError::Invalid(list)) => list,
        _ => panic!("the endpoints are not invalid"),
    }
}

#[test]
fn switches_are_off_by_default() {
    let env = environment(&[]);
    assert!(!queue_at_v4l2src(&env));
    assert!(!queue_before_payloader(&env));
    assert!(!queue_after_payloader(&env));
    assert!(!queue_per_sink_branch(&env));
    assert!(!disable_mcap(&env));
    assert!(!disable_thumbnail(&env));
    assert!(!disable_udp(&env));
    assert!(!disable_webrtc(&env));
    assert!(!queue_sizing_large(&env));
    assert!(!allow_udp_rtsp_concurrent(&env));
    assert_eq!(udp_decoupler(&env), UdpDecoupler::Proxy);
    assert_eq!(b1_queue_sizing(&env), (60, 2_000_000_000, "downstream"));
}

#[test]
fn five_values_turn_a_switch_on() {
    for value in ["1", "true", "TRUE", "yes", "YES"] {
        assert!(disable_udp(&environment(&[("MCM_DISABLE_UDP", value)])));
    }
    for value in ["0", "True", "on", "", " 1"] {
        assert!(!disable_udp(&environment(&[("MCM_DISABLE_UDP", value)])));
    }
}

#[test]
fn every_switch_has_its_variable() {
    assert!(queue_at_v4l2src(&environment(&[("MCM_QUEUE_AT_V4L2SRC", "1")])));
    assert!(queue_before_payloader(&environment(&[("MCM_QUEUE_BEFORE_PAYLOADER", "1")])));
    assert!(queue_after_payloader(&environment(&[("MCM_QUEUE_AFTER_PAYLOADER", "1")])));
    assert!(queue_per_sink_branch(&environment(&[("MCM_QUEUE_PER_SINK_BRANCH", "1")])));
    assert!(disable_mcap(&environment(&[("MCM_DISABLE_MCAP", "1")])));
    assert!(disable_thumbnail(&environment(&[("MCM_DISABLE_THUMBNAIL", "1")])));
    assert!(disable_webrtc(&environment(&[("MCM_DISABLE_WEBRTC", "1")])));
    assert!(allow_udp_rtsp_concurrent(&environment(&[(
        "MCM_ALLOW_UDP_RTSP_CONCURRENT",
        "1"
    )])));
    assert_eq!(
        b1_queue_sizing(&environment(&[("MCM_QUEUE_SIZING_LARGE", "1")])),
        (240, 8_000_000_000, "downstream")
    );
}

#[test]
fn decouplers_are_named_in_any_case() {
    let named = |value: &str| udp_decoupler(&environment(&[("MCM_UDP_DECOUPLER", value)]));
    assert_eq!(named("APPSINK"), UdpDecoupler::Appsink);
    assert_eq!(named("b1"), UdpDecoupler::B1);
    assert_eq!(named("Proxy"), UdpDecoupler::Proxy);
    assert_eq!(named("leGacy"), UdpDecoupler::Legacy);
    assert_eq!(named("else"), UdpDecoupler::Proxy);
    assert_eq!(
        udp_decoupler(&environment(&[("MCM_QUEUE_PER_SINK_BRANCH", "1")])),
        UdpDecoupler::B1
    );
    assert_eq!(
        udp_decoupler(&environment(&[
            ("MCM_QUEUE_PER_SINK_BRANCH", "1"),
            ("MCM_UDP_DECOUPLER", "legacy"),
        ])),
        UdpDecoupler::Legacy
    );
}

#[test]
fn other_sinks_read_appsink_as_proxy() {
    let env = environment(&[("MCM_UDP_DECOUPLER", "appsink")]);
    assert_eq!(zenoh_decoupler(&env), UdpDecoupler::Proxy);
    assert_eq!(webrtc_decoupler(&env), UdpDecoupler::Proxy);
    let env = environment(&[("MCM_UDP_DECOUPLER", "legacy")]);
    assert_eq!(zenoh_decoupler(&env), UdpDecoupler::Legacy);
    assert_eq!(webrtc_decoupler(&env), UdpDecoupler::Legacy);
}

#[test]
fn extra_queues_are_bounded_in_buffers_and_time() {
    let queue = make_b1_queue("b1", &environment(&[]));
    assert_eq!(queue.factory, "queue");
    assert_eq!(queue.name.as_deref(), Some("b1"));
    let names: Vec<&str> = queue.properties.iter().map(|p| p.name.as_str()).collect();
    assert_eq!(
        names,
        [
            "leaky",
            "silent",
            "flush-on-eos",
            "max-size-buffers",
            "max-size-bytes",
            "max-size-time"
        ]
    );
    assert!(matches!(&queue.properties[0].value, PropertyValue::Text(t) if t == "downstream"));
    assert!(matches!(queue.properties[1].value, PropertyValue::Bool(true)));
    assert!(matches!(queue.properties[2].value, PropertyValue::Bool(true)));
    assert!(matches!(queue.properties[3].value, PropertyValue::UInt(60)));
    assert!(matches!(queue.properties[4].value, PropertyValue::UInt(0)));
    assert!(matches!(
        queue.properties[5].value,
        PropertyValue::ULong(2_000_000_000)
    ));
}

#[test]
fn gaps_between_frames_are_counted() {
    let mut counter = DropCounter::new();
    counter.record_buffer(Some(0));
    counter.record_buffer(Some(33_000_000));
    assert_eq!(counter.drops, 0);
    // 100 ms hold three assumed frames: two are missing.
    counter.record_buffer(Some(133_000_000));
    assert_eq!(counter.drops, 2);
    // 51 ms hold one assumed frame, but are above the threshold: one is missing.
    counter.record_buffer(Some(184_000_000));
    assert_eq!(counter.drops, 3);
    // 50 ms are not.
    counter.record_pts(234_000_000);
    assert_eq!(counter.drops, 3);
    // Time stamps that go back count for nothing.
    counter.record_buffer(Some(1_000));
    counter.record_buffer(None);
    counter.record_buffer_list(3, Some(100_001_000));
    assert_eq!((counter.buffers, counter.drops), (9, 5));

    let mut window = DropWindow::new();
    let sample = window.sample(&counter);
    assert_eq!((sample.buffers_1s, sample.drops_1s), (9, 5));
    counter.record_buffer(None);
    let sample = window.sample(&counter);
    assert_eq!((sample.buffers_1s, sample.drops_1s), (1, 0));
    assert_eq!((sample.buffers_total, sample.drops_total), (10, 5));
}

#[test]
fn elements_are_measured_by_factory() {
    assert_eq!(probe_of("v4l2src"), Probe::Drops);
    assert_eq!(probe_of("queue"), Probe::QueueLevel);
    assert_eq!(probe_of("queue2"), Probe::QueueLevel);
    assert_eq!(probe_of("rtpsession"), Probe::RtpSession);
    assert_eq!(probe_of("nicesink"), Probe::NiceSink);
    assert_eq!(probe_of(""), Probe::Nothing);
}

#[test]
fn endpoints_have_their_parts() {
    let endpoint = Endpoint::parse("RTSP://192.168.0.1:8554/video/1?x=2").unwrap();
    assert_eq!(endpoint.scheme, "rtsp");
    assert_eq!(endpoint.host.as_deref(), Some("192.168.0.1"));
    assert_eq!(endpoint.port, Some(8554));
    assert_eq!(endpoint.path, "/video/1");
    assert_eq!(endpoint.text, "rtsp://192.168.0.1:8554/video/1?x=2");
    assert!(Endpoint::parse("no url").is_none());
}

#[test]
fn identities_ignore_the_address() {
    let first = pipeline_seed("camera", "rtsp://192.168.0.10:554/live");
    let second = pipeline_seed("camera", "rtsp://10.0.0.3:8554/live");
    assert_eq!(first, second);
    assert_ne!(first, pipeline_seed("camera", "rtsp://10.0.0.3:8554/other"));
    assert_ne!(first, pipeline_seed("door", "rtsp://10.0.0.3:8554/live"));
    assert_eq!(seed_of("camera", "/dev/video0"), "camera:/dev/video0");
    assert_eq!(pipeline_seed("camera", "/dev/video0"), "camera:/dev/video0");
    for scheme in ["rtsp", "http", "https", "ws", "wss", "ftp", "file"] {
        let at = |host: &str| without_address(&format!("{scheme}://{host}/a?b#c"));
        assert_eq!(at("10.0.0.3"), at("10.0.0.4"));
        if scheme != "file" {
            assert_eq!(at("10.0.0.3:81"), at("user@10.0.0.4:82"));
        }
    }
    assert_eq!(without_address("http://10.0.0.3:81/a"), "http:/a");
    assert_eq!(without_address("rtsp://10.0.0.3"), "rtsp:/");
    assert_eq!(without_address("rtsp://10.0.0.3?x=1"), "rtsp:?x=1");
    assert_eq!(without_address("file://server/a"), "file:///a");
    // Without an address there is nothing to drop.
    assert_eq!(without_address("file:///a"), "file:///a");
    assert_eq!(without_address("mailto:a@b"), "mailto:a@b");
}

#[test]
fn schemes_name_transports_and_addresses() {
    let of = |scheme: &str| Endpoint::parse(&format!("{scheme}://1.2.3.4:5/a")).unwrap();
    for scheme in ["udp", "tcp", "rtsp", "webrtc", "ws", "turn", "stun"] {
        assert_eq!(of(scheme).transport_protocol(), Ok(TransportProtocolType::RTP));
    }
    assert_eq!(of("mpegts").transport_protocol(), Ok(TransportProtocolType::MPEGTS));
    assert_eq!(of("tcpmpeg").transport_protocol(), Ok(TransportProtocolType::MPEG));
    assert_eq!(of("udp").endpoint_type(), Ok(EndpointType::UDP));
    assert_eq!(of("mpegts").endpoint_type(), Ok(EndpointType::UDP));
    assert_eq!(of("tcp").endpoint_type(), Ok(EndpointType::TCP));
    assert_eq!(of("tcpmpeg").endpoint_type(), Ok(EndpointType::TCP));
    assert_eq!(of("rtsp").endpoint_type(), Ok(EndpointType::RTSP));
    assert_eq!(of("turn").endpoint_type(), Ok(EndpointType::WebRTCRemoteTurn));
    assert_eq!(of("stun").endpoint_type(), Ok(EndpointType::WebRTCRemoteStun));
    assert_eq!(of("ws").endpoint_type(), Ok(EndpointType::WebRTCRemoteSignalling));
    assert_eq!(of("webrtc").endpoint_type(), Ok(EndpointType::WebRTCLocal));
    assert_eq!(of("udp").video_stream_type(), Ok(VideoStreamType::RtpUdp));
    assert_eq!(of("rtsp").video_stream_type(), Ok(VideoStreamType::Rtsp));
    assert_eq!(of("mpegts").video_stream_type(), Ok(VideoStreamType::MpegTsH264));
    assert_eq!(of("tcpmpeg").video_stream_type(), Ok(VideoStreamType::TcpMpeg));
}

#[test]
fn unknown_and_unsupported_schemes_are_errors() {
    let of = |scheme: &str| Endpoint::parse(&format!("{scheme}://1.2.3.4:5/a")).unwrap();
    assert_eq!(of("ftps").transport_protocol(), Err(SchemeError::UnknownProtocol));
    assert_eq!(of("ftps").endpoint_type(), Err(SchemeError::UnknownProtocol));
    let error = of("ftps").video_stream_type().unwrap_err();
    assert_eq!(error, SchemeError::UnknownProtocol);
    assert_eq!(error.message("ftps"), "Error: unknownw protocol \"ftps\"");
    let error = of("tcp").video_stream_type().unwrap_err();
    assert_eq!(
        error,
        SchemeError::Unsupported(TransportProtocolType::RTP, EndpointType::TCP)
    );
    assert_eq!(
        error.message("tcp"),
        "Endpoint Type TCP not supported for Transfer Protocol RTP."
    );
}

#[test]
fn backends_are_reached_through_their_stream() {
    let backend = StreamBackend {
        running: false,
        allow_same_endpoints: true,
        scheme: "udp".to_string(),
    };
    let mut stream = StreamType::WEBRTC(backend);
    assert!(!stream.inner().running);
    stream.mut_inner().running = true;
    assert!(stream.inner().running);
    assert!(matches!(stream, StreamType::WEBRTC(_)));
}

#[test]
fn extended_configuration_is_all_off_by_default() {
    let extended = ExtendedConfiguration::default();
    assert!(!extended.thermal);
    assert!(!extended.disable_mavlink);
    assert!(!extended.disable_lazy);
}

#[test]
fn good_endpoints_are_accepted() {
    let rtsp = rtsp_server();
    let cases = [
        (information(&["udp://1.2.3.4:5600"], VideoEncodeType::H264, local_source())),
        (information(&["udp265://1.2.3.4:5600"], VideoEncodeType::H265, local_source())),
        (information(&["rtsp://0.0.0.0:8554/a"], VideoEncodeType::Mjpg, local_source())),
        (information(&["rtspt://0.0.0.0:8554/a"], VideoEncodeType::H265, local_source())),
        (information(&["rtsp://1.2.3.4:1/a"], VideoEncodeType::H264, redirect_source())),
    ];
    for case in &cases {
        assert!(validate_endpoints(case, &rtsp).is_ok());
    }
}

#[test]
fn streams_need_endpoints_and_one_rtsp_at_most() {
    let none = information(&[], VideoEncodeType::H264, local_source());
    let error = validate_endpoints(&none, &rtsp_server()).err().unwrap();
    assert!(matches!(error, ValidationError::Empty));
    assert_eq!(error.message(""), "Endpoints are empty");
    let two = information(
        &["rtsp://0.0.0.0:8554/a", "rtsp://0.0.0.0:8554/b"],
        VideoEncodeType::H264,
        local_source(),
    );
    let error = validate_endpoints(&two, &rtsp_server()).err().unwrap();
    assert!(matches!(error, ValidationError::SeveralRtsp));
    assert_eq!(error.message(""), "Only one RTSP endpoint is supported at time");
}

#[test]
fn every_problem_is_found() {
    let h264 = |endpoint: &str| information(&[endpoint], VideoEncodeType::H264, local_source());
    let h265 = |endpoint: &str| information(&[endpoint], VideoEncodeType::H265, local_source());
    let redirect = information(&["ftps://1.2.3.4:5/a"], VideoEncodeType::H264, redirect_source());
    assert_eq!(problems(&redirect), [(0, EndpointProblem::RedirectScheme)]);
    assert_eq!(
        problems(&h264("rtspx://0.0.0.0:8554/a")),
        [(0, EndpointProblem::RtspVariant)]
    );
    assert_eq!(problems(&h264("rtsp://0.0.0.0/a")), [(0, EndpointProblem::RtspAddress)]);
    assert_eq!(problems(&h264("rtsp://0.0.0.0:8554")), [(0, EndpointProblem::RtspAddress)]);
    assert_eq!(problems(&h264("rtsp://0.0.0.0:554/a")), [(0, EndpointProblem::RtspPort)]);
    assert_eq!(problems(&h265("udp://1.2.3.4:5600")), [(0, EndpointProblem::UdpH265)]);
    assert_eq!(problems(&h264("udp://1.2.3.4")), [(0, EndpointProblem::UdpAddress)]);
    assert_eq!(problems(&h264("udp265://1.2.3.4:5600")), [(0, EndpointProblem::Udp265Encode)]);
    assert_eq!(problems(&h264("http://1.2.3.4:80/a")), [(0, EndpointProblem::UnknownScheme)]);
    let several = information(
        &["http://a", "udp://1.2.3.4:5600", "udp://b"],
        VideoEncodeType::H264,
        local_source(),
    );
    assert_eq!(
        problems(&several),
        [
            (0, EndpointProblem::UnknownScheme),
            (2, EndpointProblem::UdpAddress)
        ]
    );
}

#[test]
fn problems_are_told_in_words() {
    let shown = ShownEndpoint {
        scheme: "ftp".to_string(),
        endpoint: "E".to_string(),
        endpoints: "[E]".to_string(),
        encode: "H264".to_string(),
        rtsp_schemes: "[R]".to_string(),
    };
    let message = |problem: EndpointProblem| problem.message(&shown, 8554);
    assert_eq!(
        message(EndpointProblem::RedirectScheme),
        "The URL's scheme for REDIRECT endpoints should be \"udp\", \"udp265\", or \"rtsp\", but was: \"ftp\""
    );
    assert_eq!(
        message(EndpointProblem::RtspVariant),
        "Endpoint with rtsp scheme should use one of the following variant schemes: [R]. Endpoint: E"
    );
    assert_eq!(
        message(EndpointProblem::RtspPort),
        "Endpoint with rtsp scheme should use port 8554. Endpoint: E"
    );
    assert_eq!(
        message(EndpointProblem::Udp265Encode),
        "Endpoint with udp265 scheme only supports H265 encode. Encode: H264, Endpoint: [E]"
    );
    assert_eq!(
        message(EndpointProblem::UnknownScheme),
        "Scheme is not accepted as stream endpoint: ftp"
    );
    assert_eq!(
        ValidationError::Invalid(vec![]).message("[a]"),
        "One or more endpoints are invalid. List of Errors:\n[a]"
    );
}

fn settings(env: Environment, zenoh_enabled: bool) -> BuildSettings {
    BuildSettings {
        env,
        rtsp: rtsp_server(),
        zenoh_enabled,
    }
}

fn plan(information: &VideoAndStreamInformation, settings: &BuildSettings) -> Vec<BuildAction> {
    build_plan(information, settings).ok().unwrap()
}

#[test]
fn udp_streams_hold_a_consumer() {
    let stream = information(&["udp://1.2.3.4:5600"], VideoEncodeType::H264, local_source());
    assert_eq!(
        plan(&stream, &settings(environment(&[]), true)),
        [
            BuildAction::CreatePipeline,
            BuildAction::AttachSink(SinkKind::Udp),
            BuildAction::HoldConsumer,
            BuildAction::AttachSink(SinkKind::Image),
            BuildAction::AttachSink(SinkKind::Zenoh),
            BuildAction::StartPipeline,
            BuildAction::StartSinks,
        ]
    );
    let env = environment(&[
        ("MCM_DISABLE_UDP", "1"),
        ("MCM_DISABLE_THUMBNAIL", "1"),
        ("MCM_DISABLE_MCAP", "1"),
    ]);
    assert_eq!(
        plan(&stream, &settings(env, true)),
        [
            BuildAction::CreatePipeline,
            BuildAction::StartPipeline,
            BuildAction::StartSinks,
        ]
    );
}

#[test]
fn udp_and_rtsp_do_not_go_together() {
    let stream = information(
        &["udp://1.2.3.4:5600", "rtsp://0.0.0.0:8554/a"],
        VideoEncodeType::H264,
        local_source(),
    );
    assert_eq!(
        plan(&stream, &settings(environment(&[]), false)),
        [
            BuildAction::CreatePipeline,
            BuildAction::Refuse(Refusal::UdpWithRtsp),
        ]
    );
    let env = environment(&[("MCM_ALLOW_UDP_RTSP_CONCURRENT", "yes")]);
    assert_eq!(
        plan(&stream, &settings(env, false)),
        [
            BuildAction::CreatePipeline,
            BuildAction::AttachSink(SinkKind::Udp),
            BuildAction::HoldConsumer,
            BuildAction::AttachSink(SinkKind::Rtsp),
            BuildAction::AttachSink(SinkKind::Image),
            BuildAction::StartPipeline,
            BuildAction::StartSinks,
        ]
    );
    assert_eq!(
        Refusal::UdpWithRtsp.message(),
        "UDP endpoints won't work together with RTSP endpoints. You need to choose one. This is a (temporary) software limitation, if this is a feature you need, please, contact us."
    );
}

#[test]
fn redirections_get_no_sinks_for_their_endpoints() {
    let mut stream = information(&["udp://1.2.3.4:5600"], VideoEncodeType::Mjpg, redirect_source());
    stream.stream_information.extended_configuration = Some(ExtendedConfiguration {
        disable_thumbnails: true,
        ..ExtendedConfiguration::default()
    });
    assert_eq!(
        plan(&stream, &settings(environment(&[]), true)),
        [
            BuildAction::CreatePipeline,
            BuildAction::StartPipeline,
            BuildAction::StartSinks,
        ]
    );
    stream.stream_information.configuration =
        CaptureConfiguration::REDIRECT(RedirectCaptureConfiguration {});
    assert_eq!(
        plan(&stream, &settings(environment(&[]), true)),
        [
            BuildAction::CreatePipeline,
            BuildAction::Refuse(Refusal::NotInitialized),
        ]
    );
    assert_eq!(
        Refusal::NotInitialized.message(),
        "Redirect CaptureConfiguration means the stream was not initialized yet"
    );
}

#[test]
fn building_stops_at_the_first_failure() {
    let stream = information(&["udp://1.2.3.4:5600"], VideoEncodeType::Rgb, local_source());
    let settings = settings(environment(&[]), true);
    let mut state = StreamState::try_new(&stream, &settings).ok().unwrap();
    assert_eq!(state.next_action(), Some(BuildAction::CreatePipeline));
    state.report(true);
    assert_eq!(state.next_action(), Some(BuildAction::AttachSink(SinkKind::Udp)));
    state.report(false);
    assert_eq!(state.next_action(), None);
    assert!(!state.is_built());

    let mut state = StreamState::try_new(&stream, &settings).ok().unwrap();
    while state.next_action().is_some() {
        state.report(true);
    }
    assert!(state.is_built());
}

#[test]
fn a_stream_state_starts_without_a_pipeline() {
    let stream = information(&["udp://1.2.3.4:5600"], VideoEncodeType::H264, local_source());
    let state = StreamState::try_default(&stream, &rtsp_server()).ok().unwrap();
    assert_eq!(state.next_action(), None);
    let wrong = information(&[], VideoEncodeType::H264, local_source());
    assert!(StreamState::try_default(&wrong, &rtsp_server()).is_err());
}

#[test]
fn sink_failures_are_told_in_words() {
    assert_eq!(
        sink_failure_message(SinkKind::Udp, Failure::Create, "x"),
        "Failed to create Sink of type UDP. Reason: x"
    );
    assert_eq!(
        sink_failure_message(SinkKind::Rtsp, Failure::Add, "x"),
        "Failed to add Sink of type RTSP to the Pipeline. Reason: x"
    );
    assert_eq!(
        sink_failure_message(SinkKind::Image, Failure::NoPipeline, "x"),
        "No Pipeline available to add Image sink"
    );
    assert_eq!(SinkKind::Zenoh.name(), "Zenoh");
}

#[test]
fn custom_pipelines_have_no_controls() {
    let source = VideoSourceCustomPipeline {
        name: "Custom".to_string(),
        source: VideoSourceCustomPipelineType::Pipeline("videotestsrc ! x264enc".to_string()),
    };
    assert_eq!(source.name(), "Custom");
    assert_eq!(source.source_string(), "videotestsrc ! x264enc");
    assert!(source.set_control_by_name("a", 1).is_err());
    assert!(source.set_control_by_id(1, 1).is_err());
    assert!(source.control_value_by_name("a").is_err());
    assert!(source.control_value_by_id(1).is_err());
    assert!(source.controls().is_empty());
    assert!(source.formats().is_empty());
    assert!(source.is_valid());
    let available = VideoSourceCustomPipeline::cameras_available();
    assert_eq!(available.len(), 1);
    match &available[0] {
        VideoSourceType::CustomPipeline(camera) => {
            assert_eq!(camera.name, "Pipeline source");
            assert_eq!(camera.source_string(), "Pipeline");
        }
        _ => panic!("not a custom pipeline"),
    }
    assert_eq!(
        NoControls.message(),
        "Custom pipeline sources doesn't have controls."
    );
}

#[test]
fn custom_streams_remember_their_description() {
    let mut stream = VideoStreamCustomPipeline::default();
    assert_eq!(stream.pipeline(), "");
    stream.set_pipeline_description("videotestsrc ! fakesink");
    assert_eq!(stream.pipeline(), "videotestsrc ! fakesink");
}
