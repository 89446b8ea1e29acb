//! Pipeline descriptions, the runner and the controls of encoders.
use mavlink_camera_manager::stream::debug_env::Environment;
use mavlink_camera_manager::stream::element::PropertyValue;
use mavlink_camera_manager::stream::endpoint::Endpoint;
use mavlink_camera_manager::stream::peer_id::PeerId;
use mavlink_camera_manager::stream::pipeline::fake_pipeline::{
    attach_fake_compressed_source, fake_compressed_encoder_factory, unlinked_static_sink_pad,
    CompressedError, EncodeFacts, FakeError, FakePipeline, FakePlan, FakeSource, FoundElement,
};
use mavlink_camera_manager::stream::pipeline::parts::{PipelineNames, Platform};
use mavlink_camera_manager::stream::pipeline::runner::{
    calculate_median_frame_duration, dump_name, initial_frame_duration, judge_look,
    on_bus_message, BusAction, BusMessage, Look, NoPosition, PipelineRunner,
    PipelineRunnerContext, RunnerEnd, RunnerEvent, RunnerPhase, TickReport,
};
use mavlink_camera_manager::stream::pipeline::source::{LibcameraSourcePipeline, SourcePipeline};
use mavlink_camera_manager::stream::pipeline::transcoding::{
    threads_for, ManualH264TranscodingPipeline, PropertySetting, TranscodingPipeline,
};
use mavlink_camera_manager::stream::pipeline::v4l_pipeline::{V4lError, V4lPipeline};
use mavlink_camera_manager::stream::pipeline::v4l_profiles;
use mavlink_camera_manager::stream::pipeline_controls::{
    auto_restart_control_id, encoder_factory_name, is_pipeline_control_id, list_pipeline_controls,
    live_write_wanted, pipeline_control_value_by_id, pipeline_controls_for_mavlink,
    read_property_as_api, reset_pipeline_controls, restart_stream_control_id,
    set_pipeline_control, Control, ControlBool, ControlError, ControlFlags, ControlIds,
    ControlMenu, ControlOption, ControlOutcome, ControlSlider, ControlState, ControlType, Encoder, LiveProperty,
    LiveValue, LiveWrite, Nick, Probe,
};
use mavlink_camera_manager::stream::sink::branch::ElementState;
use mavlink_camera_manager::stream::transcoding_types::{
    EncoderProperty, EncoderValue, ManualTranscodingConfig, SourceConfiguration, TranscodedStream,
    TranscodingCapture, TranscodingCaptureConfiguration,
};
use mavlink_camera_manager::stream::types::{
    CaptureConfiguration, FrameInterval, RedirectCaptureConfiguration, StreamInformation,
    VideoAndStreamInformation, VideoCaptureConfiguration, VideoEncodeType, VideoSourceGst,
    VideoSourceGstType, VideoSourceLocal, VideoSourceType,
};

const ID: PeerId = PeerId { value: 0 };
const ID_TEXT: &str = "00000000-0000-0000-0000-000000000000";

fn names() -> PipelineNames {
    PipelineNames {
        filter: "Filter".to_string(),
        video_tee: "VideoTee".to_string(),
        rtp_tee: "RTPTee".to_string(),
    }
}

fn manual(encoder: &str, decoder: &str) -> SourceConfiguration {
    SourceConfiguration::ManualTranscoding(ManualTranscodingConfig {
        encoder: encoder.to_string(),
        encoder_properties: vec![],
        decoder: decoder.to_string(),
        decoder_properties: vec![],
    })
}

fn fake_video_and_stream(
    source_encode: VideoEncodeType,
    sink_encode: VideoEncodeType,
    source_configuration: SourceConfiguration,
) -> TranscodedStream {
    TranscodedStream {
        name: "fake-transcoding-test".to_string(),
        configuration: TranscodingCapture::Video(TranscodingCaptureConfiguration {
            source_encode,
            sink_encode,
            height: 240,
            width: 320,
            frame_interval: FrameInterval {
                numerator: 1,
                denominator: 30,
            },
            bit_depth: None,
            source_configuration,
            auto_restart_on_config_change: false,
        }),
        video_source: VideoSourceType::Gst(VideoSourceGst {
            name: "Fake".to_string(),
            source: VideoSourceGstType::Fake("ball".to_string()),
        }),
    }
}

const RAW_TO_COMPRESSED: EncodeFacts = EncodeFacts {
    raw_source: true,
    raw_sink: false,
    sendable_sink: true,
};

const COMPRESSED_TO_RAW: EncodeFacts = EncodeFacts {
    raw_source: false,
    raw_sink: true,
    sendable_sink: false,
};

fn fake(stream: &TranscodedStream, facts: EncodeFacts) -> FakePipeline {
    let pipeline = FakePipeline::try_new(ID, stream, &names(), Platform::Linux, facts);
    let pipeline = pipeline.ok().expect("build fake pipeline");
    assert_eq!(pipeline.name, format!("pipeline-fake-{ID_TEXT}"));
    pipeline
}

/// The filter that waits for compressed video, after one that is linked.
fn filters(mime: &str) -> Vec<FoundElement> {
    let filter = |linked| FoundElement {
        factory: Some("capsfilter".to_string()),
        mime: Some(mime.to_string()),
        sink_linked: linked,
    };
    vec![
        FoundElement {
            factory: None,
            mime: None,
            sink_linked: None,
        },
        filter(Some(true)),
        filter(Some(false)),
    ]
}

fn installed() -> Vec<String> {
    ["x264enc", "x265enc", "jpegenc"]
        .iter()
        .map(|factory| factory.to_string())
        .collect()
}

#[test]
fn auto_encode_uses_videotestsrc_and_encodebin() {
    let stream = fake_video_and_stream(
        VideoEncodeType::Nv12,
        VideoEncodeType::H264,
        SourceConfiguration::AutoTranscoding,
    );
    match fake(&stream, RAW_TO_COMPRESSED).plan {
        FakePlan::Transcoding {
            manual,
            source_factory,
            frame_interval,
            source: FakeSource::Raw { settings, converter },
        } => {
            assert!(!manual);
            assert_eq!(source_factory.as_deref(), Some("videotestsrc"));
            assert!(frame_interval.is_none());
            assert_eq!(settings.name.as_deref(), Some("source"));
            assert_eq!(converter.factory, "videoconvert");
            assert_eq!(converter.name.as_deref(), Some("fake-source-videoconvert"));
        }
        _ => panic!("no encoder belongs in front of raw video"),
    }
}

#[test]
fn manual_encode_uses_videotestsrc_and_named_encoder() {
    let stream = fake_video_and_stream(
        VideoEncodeType::Nv12,
        VideoEncodeType::H264,
        manual("x264enc", ""),
    );
    assert_eq!(encoder_factory_name(&stream), "x264enc");
    match fake(&stream, RAW_TO_COMPRESSED).plan {
        FakePlan::Transcoding {
            manual,
            source_factory,
            source: FakeSource::Raw { settings, .. },
            ..
        } => {
            assert!(manual);
            assert_eq!(source_factory.as_deref(), Some("videotestsrc"));
            assert_eq!(settings.factory, "videotestsrc");
            let names: Vec<&str> = settings.optional.iter().map(|p| p.name.as_str()).collect();
            assert_eq!(names, ["pattern", "is-live", "do-timestamp"]);
        }
        _ => panic!("no encoder belongs in front of raw video"),
    }
}

fn assert_compressed(encode: VideoEncodeType, mime: &str, encoder: &str, parser: Option<&str>) {
    let (at, source) = attach_fake_compressed_source(
        &filters(mime),
        &encode,
        "ball",
        Platform::Linux,
        &installed(),
    )
    .ok()
    .expect("attach compressed source");
    assert_eq!(at, 2);
    assert_eq!(source.source.name.as_deref(), Some("source"));
    assert_eq!(source.encoder.name.as_deref(), Some("fake-source-encoder"));
    assert_eq!(source.encoder.factory, encoder);
    assert_eq!(source.parser.map(|p| p.factory).as_deref(), parser);
}

#[test]
fn auto_decode_inserts_fake_compressed_source_encoder() {
    let stream = fake_video_and_stream(
        VideoEncodeType::H264,
        VideoEncodeType::Nv12,
        SourceConfiguration::AutoTranscoding,
    );
    match fake(&stream, COMPRESSED_TO_RAW).plan {
        FakePlan::Transcoding {
            manual,
            source_factory,
            frame_interval,
            source: FakeSource::Compressed,
        } => {
            assert!(!manual);
            assert!(source_factory.is_none());
            assert!(frame_interval.is_none());
        }
        _ => panic!("compressed video comes out of an encoder"),
    }
    assert_compressed(VideoEncodeType::H264, "video/x-h264", "x264enc", Some("h264parse"));
}

#[test]
fn manual_decode_inserts_fake_compressed_source_encoder() {
    let stream = fake_video_and_stream(
        VideoEncodeType::H264,
        VideoEncodeType::Yuyv,
        manual("", "avdec_h264"),
    );
    match fake(&stream, COMPRESSED_TO_RAW).plan {
        FakePlan::Transcoding {
            manual,
            frame_interval,
            source: FakeSource::Compressed,
            ..
        } => {
            assert!(manual);
            assert_eq!(
                frame_interval,
                Some(FrameInterval {
                    numerator: 1,
                    denominator: 30
                })
            );
        }
        _ => panic!("compressed video comes out of an encoder"),
    }
    assert_compressed(VideoEncodeType::H264, "video/x-h264", "x264enc", Some("h264parse"));
}

#[test]
fn manual_transcode_inserts_fake_compressed_source_encoder() {
    let stream = fake_video_and_stream(
        VideoEncodeType::Mjpg,
        VideoEncodeType::H264,
        manual("x264enc", "jpegdec"),
    );
    let facts = EncodeFacts {
        raw_source: false,
        raw_sink: false,
        sendable_sink: true,
    };
    assert!(matches!(
        fake(&stream, facts).plan,
        FakePlan::Transcoding {
            manual: true,
            source: FakeSource::Compressed,
            ..
        }
    ));
    assert_compressed(VideoEncodeType::Mjpg, "image/jpeg", "jpegenc", None);
}

#[test]
fn classic_test_pictures_are_described() {
    let describe = |encode: VideoEncodeType, platform: Platform| {
        let stream = fake_video_and_stream(
            encode.clone(),
            encode,
            SourceConfiguration::Classic,
        );
        match FakePipeline::try_new(ID, &stream, &names(), platform, RAW_TO_COMPRESSED) {
            Ok(FakePipeline {
                plan: FakePlan::Classic { description },
                ..
            }) => description,
            _ => panic!("no description"),
        }
    };
    assert_eq!(
        describe(VideoEncodeType::H264, Platform::Linux),
        format!(
            "videotestsrc pattern=ball is-live=true do-timestamp=true \
             ! timeoverlay \
             ! video/x-raw,format=I420 \
             ! x264enc tune=zerolatency speed-preset=ultrafast bitrate=5000 \
             ! h264parse config-interval=-1 \
             ! capsfilter name=Filter-{0} caps=video/x-h264,stream-format=avc,alignment=au,width=320,height=240,framerate=30/1,profile=constrained-baseline \
             ! tee name=VideoTee-{0} allow-not-linked=true \
             ! rtph264pay aggregate-mode=zero-latency config-interval=-1 pt=96 \
             ! tee name=RTPTee-{0} allow-not-linked=true",
            ID_TEXT
        )
    );
    assert_eq!(
        describe(VideoEncodeType::H265, Platform::MacOs),
        format!(
            "videotestsrc pattern=ball is-live=true do-timestamp=true \
             ! timeoverlay \
             ! video/x-raw,format=I420 \
             ! vtenc_h265 allow-frame-reordering=false realtime=true quality=0.0 bitrate=5000 \
             ! h265parse config-interval=-1 \
             ! capsfilter name=Filter-{0} caps=video/x-h265,profile=main,stream-format=byte-stream,alignment=au,width=320,height=240,framerate=30/1 \
             ! tee name=VideoTee-{0} allow-not-linked=true \
             ! rtph265pay aggregate-mode=zero-latency config-interval=-1 pt=96 \
             ! tee name=RTPTee-{0} allow-not-linked=true",
            ID_TEXT
        )
    );
    assert!(describe(VideoEncodeType::H264, Platform::Windows)
        .contains("format=NV12 ! mfh264enc low-latency=true bitrate=5000 ! h264parse"));
    assert_eq!(
        describe(VideoEncodeType::Yuyv, Platform::Windows),
        format!(
            "videotestsrc pattern=ball is-live=true do-timestamp=true \
             ! timeoverlay \
             ! video/x-raw,format=I420 \
             ! capsfilter name=Filter-{0} caps=video/x-raw,format=I420,width=320,height=240,framerate=30/1 \
             ! tee name=VideoTee-{0} allow-not-linked=true \
             ! rtpvrawpay pt=96 \
             ! tee name=RTPTee-{0} allow-not-linked=true",
            ID_TEXT
        )
    );
    assert!(describe(VideoEncodeType::Mjpg, Platform::Linux)
        .contains(" ! jpegenc quality=85 idct-method=1 ! capsfilter name=Filter-"));
}

#[test]
fn not_everything_can_be_faked() {
    let error = |stream: &TranscodedStream| {
        let facts = EncodeFacts {
            raw_source: false,
            raw_sink: false,
            sendable_sink: false,
        };
        FakePipeline::try_new(ID, stream, &names(), Platform::Linux, facts)
            .err()
            .unwrap()
    };
    let mut stream = fake_video_and_stream(
        VideoEncodeType::Rgb,
        VideoEncodeType::Rgb,
        SourceConfiguration::Classic,
    );
    assert_eq!(error(&stream), FakeError::Encode);
    stream.video_source = VideoSourceType::Gst(VideoSourceGst {
        name: "QR".to_string(),
        source: VideoSourceGstType::Other("qr".to_string()),
    });
    assert_eq!(error(&stream), FakeError::GstSource);
    stream.video_source = local_source();
    assert_eq!(error(&stream), FakeError::SourceType);
    stream.configuration = TranscodingCapture::Redirect;
    assert_eq!(error(&stream), FakeError::Configuration);
    let stream = fake_video_and_stream(
        VideoEncodeType::H264,
        VideoEncodeType::Unknown("VP8".to_string()),
        manual("", ""),
    );
    assert_eq!(error(&stream), FakeError::SinkEncode);
}

#[test]
fn compressed_sources_need_a_free_filter_and_an_encoder() {
    let h264 = VideoEncodeType::H264;
    let free = filters("video/x-h264");
    assert_eq!(unlinked_static_sink_pad(&free, &h264), Ok(2));
    assert_eq!(
        unlinked_static_sink_pad(&free, &VideoEncodeType::H265),
        Err(CompressedError::NoFilter)
    );
    assert_eq!(
        unlinked_static_sink_pad(&free, &VideoEncodeType::Nv12),
        Err(CompressedError::Encode)
    );
    let mut without_pad = filters("video/x-h264");
    without_pad[1].sink_linked = None;
    assert_eq!(
        unlinked_static_sink_pad(&without_pad, &h264),
        Err(CompressedError::NoSinkPad)
    );
    assert_eq!(
        fake_compressed_encoder_factory(&VideoEncodeType::H265, Platform::Linux, &installed()),
        Ok("x265enc")
    );
    assert_eq!(
        fake_compressed_encoder_factory(&VideoEncodeType::H265, Platform::MacOs, &installed()),
        Err(CompressedError::EncoderUnavailable)
    );
    assert_eq!(
        attach_fake_compressed_source(&free, &h264, "ball", Platform::Windows, &installed())
            .err()
            .unwrap(),
        CompressedError::EncoderUnavailable
    );
}

fn local_source() -> VideoSourceType {
    VideoSourceType::Local(VideoSourceLocal {
        name: "camera".to_string(),
        device_path: "/dev/video2".to_string(),
    })
}

fn local_stream(encode: VideoEncodeType) -> VideoAndStreamInformation {
    VideoAndStreamInformation {
        name: "local".to_string(),
        stream_information: StreamInformation {
            endpoints: vec![Endpoint::parse("udp://0.0.0.0:5600").unwrap()],
            configuration: CaptureConfiguration::VIDEO(VideoCaptureConfiguration {
                encode,
                height: 480,
                width: 640,
                frame_interval: FrameInterval {
                    numerator: 1,
                    denominator: 25,
                },
            }),
            extended_configuration: None,
        },
        video_source: local_source(),
    }
}

fn environment(names: &[&str]) -> Environment {
    Environment {
        vars: names
            .iter()
            .map(|name| (name.to_string(), "1".to_string()))
            .collect(),
    }
}

#[test]
fn local_devices_are_described() {
    let describe = |encode: VideoEncodeType, env: Environment| {
        let pipeline = V4lPipeline::try_new(ID, &local_stream(encode), &names(), &env);
        let pipeline = pipeline.ok().unwrap();
        assert_eq!(pipeline.name, format!("pipeline-v4l2-{ID_TEXT}"));
        pipeline.description
    };
    assert_eq!(
        describe(VideoEncodeType::H264, environment(&[])),
        format!(
            "v4l2src device=/dev/video2 do-timestamp=true \
             ! h264parse config-interval=-1 \
             ! capsfilter name=Filter-{0} caps=video/x-h264,stream-format=avc,alignment=au,width=640,height=480,framerate=25/1 \
             ! tee name=VideoTee-{0} allow-not-linked=true \
             ! rtph264pay aggregate-mode=zero-latency config-interval=-1 pt=96 \
             ! tee name=RTPTee-{0} allow-not-linked=true",
            ID_TEXT
        )
    );
    let env = environment(&[
        "MCM_QUEUE_AT_V4L2SRC",
        "MCM_QUEUE_BEFORE_PAYLOADER",
        "MCM_QUEUE_AFTER_PAYLOADER",
    ]);
    let queue = |name: &str| {
        format!("queue name={name} leaky=downstream silent=true flush-on-eos=true max-size-buffers=60 max-size-bytes=0 max-size-time=2000000000 ! ")
    };
    assert_eq!(
        describe(VideoEncodeType::H265, env),
        format!(
            "v4l2src device=/dev/video2 do-timestamp=true \
             ! {1}h265parse \
             ! capsfilter name=Filter-{0} caps=video/x-h265,stream-format=byte-stream,alignment=au,width=640,height=480,framerate=25/1 \
             ! tee name=VideoTee-{0} allow-not-linked=true \
             ! {2}rtph265pay aggregate-mode=zero-latency config-interval=-1 pt=96 \
             ! {3}tee name=RTPTee-{0} allow-not-linked=true",
            ID_TEXT,
            queue("b1_q_at_v4l2src"),
            queue("b1_q_before_pay"),
            queue("b1_q_after_pay"),
        )
    );
    assert!(describe(VideoEncodeType::Yuyv, environment(&[]))
        .contains(" ! videoconvert ! capsfilter name=Filter-"));
    assert!(describe(VideoEncodeType::Mjpg, environment(&[]))
        .starts_with("v4l2src device=/dev/video2 do-timestamp=true ! capsfilter name=Filter-"));
}

#[test]
fn only_some_local_streams_are_possible() {
    let error = |stream: &VideoAndStreamInformation| {
        V4lPipeline::try_new(ID, stream, &names(), &environment(&[]))
            .err()
            .unwrap()
    };
    let mut stream = local_stream(VideoEncodeType::Rgb);
    assert_eq!(error(&stream), V4lError::Encode);
    stream.video_source = VideoSourceType::Gst(VideoSourceGst {
        name: "Fake".to_string(),
        source: VideoSourceGstType::Fake("ball".to_string()),
    });
    assert_eq!(error(&stream), V4lError::SourceType);
    stream.stream_information.configuration =
        CaptureConfiguration::REDIRECT(RedirectCaptureConfiguration {});
    assert_eq!(error(&stream), V4lError::Configuration);
}

#[test]
fn profiles_are_tried_in_order() {
    let mut search = v4l_profiles::V4lPipeline::search(&local_stream(VideoEncodeType::H264))
        .ok()
        .unwrap();
    assert_eq!(
        search.next_probe().unwrap(),
        "v4l2src device=/dev/video2 do-timestamp=false num-buffers=1 ! h264parse ! video/x-h264,stream-format=avc,alignment=au,profile=constrained-baseline,width=640,height=480,framerate=25/1 ! fakesink"
    );
    search.reject();
    assert!(search.next_probe().unwrap().contains(",profile=baseline,"));
    let pipeline = v4l_profiles::V4lPipeline::try_new(&search, "Filter", "Tee")
        .ok()
        .unwrap();
    assert_eq!(
        pipeline.description,
        "v4l2src device=/dev/video2 do-timestamp=false ! h264parse ! capsfilter name=Filter caps=video/x-h264,stream-format=avc,alignment=au,profile=baseline,width=640,height=480,framerate=25/1 ! rtph264pay aggregate-mode=zero-latency config-interval=10 pt=96 timestamp-offset=0 ! tee name=Tee allow-not-linked=true"
    );
    search.reject();
    assert!(search.next_probe().unwrap().contains(",profile=main,"));
    search.reject();
    assert!(search.next_probe().unwrap().contains(",profile=high,"));
    search.reject();
    assert!(search.next_probe().is_none());
    assert_eq!(
        v4l_profiles::V4lPipeline::try_new(&search, "Filter", "Tee")
            .err()
            .unwrap(),
        V4lError::Profile
    );
    let jpeg = v4l_profiles::V4lPipeline::search(&local_stream(VideoEncodeType::Mjpg))
        .ok()
        .unwrap();
    assert_eq!(
        v4l_profiles::V4lPipeline::try_new(&jpeg, "Filter", "Tee")
            .err()
            .unwrap(),
        V4lError::Encode
    );
    assert_eq!(
        v4l_profiles::judge_probe(v4l_profiles::ProbeMessage::Eos),
        Some(true)
    );
    assert_eq!(
        v4l_profiles::judge_probe(v4l_profiles::ProbeMessage::Error),
        Some(false)
    );
    assert_eq!(
        v4l_profiles::judge_probe(v4l_profiles::ProbeMessage::Other),
        None
    );
}

#[test]
fn raw_cameras_are_encoded_by_hand() {
    let mut pipeline = ManualH264TranscodingPipeline {
        source_encode: VideoEncodeType::Yuyv,
        width: 1280,
        height: 720,
        manual_config: ManualTranscodingConfig {
            encoder: "x264enc".to_string(),
            encoder_properties: vec![
                EncoderProperty {
                    name: "bitrate".to_string(),
                    value: EncoderValue::Integer(1000),
                },
                EncoderProperty {
                    name: "tune".to_string(),
                    value: EncoderValue::Text("film".to_string()),
                },
            ],
            decoder: String::new(),
            decoder_properties: vec![],
        },
    };
    assert_eq!(
        pipeline
            .launch_description("/base/imx708", ID, &names(), 2)
            .ok()
            .unwrap(),
        format!(
            "libcamerasrc name=source camera-name=/base/imx708 \
             ! video/x-raw,format=YUY2,width=1280,height=720 \
             ! queue leaky=downstream max-size-buffers=2 max-size-time=0 max-size-bytes=0 \
             ! videoconvert \
             ! x264enc name=encoder speed-preset=ultrafast tune=zerolatency key-int-max=60 bitrate=4000 bframes=0 threads=2 \
             ! h264parse config-interval=-1 \
             ! capsfilter name=Filter-{0} caps=video/x-h264,stream-format=avc,alignment=au,width=1280,height=720 \
             ! tee name=VideoTee-{0} allow-not-linked=true \
             ! rtph264pay aggregate-mode=zero-latency config-interval=-1 pt=96 \
             ! tee name=RTPTee-{0} allow-not-linked=true",
            ID_TEXT
        )
    );
    let missing = pipeline.apply_runtime_properties(false).err().unwrap();
    assert_eq!(
        missing.message(),
        "Manual transcoding pipeline is missing the encoder element"
    );
    let settings = pipeline.apply_runtime_properties(true).ok().unwrap();
    assert_eq!(settings.len(), 2);
    assert!(matches!(&settings[0], PropertySetting::FromApi { name, api: 1000 } if name == "bitrate"));
    assert!(matches!(
        &settings[1],
        PropertySetting::Direct { name, value: EncoderValue::Text(text) }
            if name == "tune" && text == "film"
    ));
    pipeline.source_encode = VideoEncodeType::H264;
    assert!(pipeline
        .launch_description("/base/imx708", ID, &names(), 2)
        .is_err());
    assert_eq!(threads_for(Some(8)), 4);
    assert_eq!(threads_for(Some(1)), 1);
    assert_eq!(threads_for(None), 1);
}

#[test]
fn libcamera_sources_name_their_camera() {
    let source = LibcameraSourcePipeline {
        device_path: "/base/imx708".to_string(),
    }
    .build_source();
    assert_eq!(source.factory, "libcamerasrc");
    assert_eq!(source.name.as_deref(), Some("source"));
    assert_eq!(source.properties.len(), 1);
    assert_eq!(source.properties[0].name, "camera-name");
    assert!(matches!(&source.properties[0].value, PropertyValue::Text(t) if t == "/base/imx708"));
}

#[test]
fn medians_are_in_the_middle() {
    assert_eq!(calculate_median_frame_duration(&vec![]), None);
    assert_eq!(calculate_median_frame_duration(&vec![7]), Some(7));
    assert_eq!(calculate_median_frame_duration(&vec![9, 1, 5]), Some(5));
    assert_eq!(calculate_median_frame_duration(&vec![4, 1, 3, 8]), Some(3));
    assert_eq!(
        calculate_median_frame_duration(&vec![u64::MAX, u64::MAX]),
        Some(u64::MAX)
    );
}

#[test]
fn frozen_pipelines_are_noticed_once() {
    let second = 1_000_000_000u64;
    let mut context = PipelineRunnerContext::new(Some(33_333_333));
    assert_eq!((context.timeout, context.tick), (1_000_000_000, 500_000_000));
    assert_eq!(context.handle_pipeline_tick(None, 0), Err(NoPosition));
    assert_eq!(
        context.handle_pipeline_tick(Some(0), 0),
        Ok((TickReport::Quiet, false))
    );
    assert_eq!(
        context.handle_pipeline_tick(Some(100), second),
        Ok((TickReport::Started, false))
    );
    assert_eq!(
        context.handle_pipeline_tick(Some(100), second + 999_999_999),
        Ok((TickReport::Quiet, false))
    );
    assert_eq!(
        context.handle_pipeline_tick(Some(100), 2 * second),
        Ok((TickReport::Frozen { elapsed_ns: second }, false))
    );
    assert_eq!(
        context.handle_pipeline_tick(Some(100), 3 * second),
        Ok((TickReport::Quiet, false))
    );
    assert_eq!(
        context.handle_pipeline_tick(Some(100), 6 * second),
        Ok((
            TickReport::StillFrozen {
                elapsed_ns: 5 * second
            },
            false
        ))
    );
    assert_eq!(
        context.handle_pipeline_tick(Some(200), 7 * second),
        Ok((
            TickReport::Recovered {
                frozen_ns: 6 * second
            },
            false
        ))
    );
}

/// A runner of a pipeline that has reached `Playing`.
fn running_runner(allow_block: bool) -> PipelineRunner {
    let video = local_stream(VideoEncodeType::H264)
        .stream_information
        .configuration;
    let mut runner = PipelineRunner::try_new(allow_block, &video);
    runner.start(Some(ElementState::Playing));
    runner.advance(RunnerEvent::PlayingReached(true));
    assert_eq!(runner.phase, RunnerPhase::Running);
    runner
}

#[test]
fn frozen_pipelines_are_ended() {
    let second = 1_000_000_000u64;
    let mut runner = running_runner(false);
    let mut blocked = running_runner(true);
    let mut context = PipelineRunnerContext::new(Some(33_333_333));
    let looks = [
        (Some(0), 0, Look::Moving),
        (Some(100), second, Look::Moving),
        (Some(100), second + 999_999_999, Look::Moving),
        (Some(100), 2 * second, Look::Frozen),
        (Some(100), 7 * second, Look::Frozen),
    ];
    for (i, (position, now, expected)) in looks.into_iter().enumerate() {
        let tick = context.handle_pipeline_tick(position, now);
        let look = judge_look(&tick);
        assert_eq!(look, expected);
        runner.advance(RunnerEvent::Ticked(look));
        blocked.advance(RunnerEvent::Ticked(look));
        assert_eq!(runner.is_running(), i < 3);
    }
    assert_eq!(runner.phase, RunnerPhase::Ended(RunnerEnd::Frozen));
    assert_eq!(blocked.phase, RunnerPhase::Running);
    blocked.advance(RunnerEvent::Ticked(Look::NoPosition));
    assert_eq!(blocked.phase, RunnerPhase::Running);

    assert_eq!(judge_look(&Err(NoPosition)), Look::NoPosition);
    let recovered = TickReport::Recovered { frozen_ns: 1 };
    assert_eq!(judge_look(&Ok((recovered, false))), Look::Moving);
    assert_eq!(judge_look(&Ok((TickReport::Started, true))), Look::Moving);
}

#[test]
fn limits_follow_the_frames() {
    let mut context = PipelineRunnerContext::new(Some(1_000_000_000));
    assert_eq!(
        (context.timeout, context.tick),
        (10_000_000_000, 1_000_000_000)
    );
    let mut position = 40_000_000u64;
    context.handle_pipeline_tick(Some(position), 1).unwrap();
    for i in 0..5u64 {
        position += 40_000_000;
        let (_, adapted) = context.handle_pipeline_tick(Some(position), 2 + i).unwrap();
        assert_eq!(adapted, i == 4);
    }
    assert_eq!(context.frame_duration, Some(40_000_000));
    assert_eq!(
        (context.timeout, context.tick),
        (1_000_000_000, 500_000_000)
    );
    let unknown = PipelineRunnerContext::new(None);
    assert_eq!(
        (unknown.timeout, unknown.tick),
        (5_000_000_000, 1_000_000_000)
    );
}

#[test]
fn longer_frames_are_waited_for_longer() {
    let expected: [(Option<u64>, u128, u64); 6] = [
        (Some(0), 1_000_000_000, 500_000_000),
        (Some(33_333_333), 1_000_000_000, 500_000_000),
        (Some(150_000_000), 1_500_000_000, 750_000_000),
        (Some(1_000_000_000), 10_000_000_000, 1_000_000_000),
        (Some(u64::MAX), u64::MAX as u128 * 10, 1_000_000_000),
        (None, 5_000_000_000, 1_000_000_000),
    ];
    for (duration, timeout, tick) in expected {
        assert_eq!(PipelineRunner::calculate_adaptive_timeout(duration), timeout);
        assert_eq!(PipelineRunner::calculate_tick_interval(timeout), tick);
    }
    assert_eq!(PipelineRunner::calculate_tick_interval(0), 200_000_000);
}

#[test]
fn improper_intervals_mean_one_frame_a_second() {
    let proper = FrameInterval {
        numerator: 1,
        denominator: 30,
    };
    assert_eq!(initial_frame_duration(proper, 30_000_000_000), 30_000_000_000);
    let improper = FrameInterval {
        numerator: 0,
        denominator: 30,
    };
    assert_eq!(initial_frame_duration(improper, 5), 1_000_000_000);
}

#[test]
fn runners_start_and_end() {
    let video = local_stream(VideoEncodeType::H264)
        .stream_information
        .configuration;
    let mut runner = PipelineRunner::try_new(false, &video);
    assert!(runner.is_running());
    runner.start(Some(ElementState::Null));
    assert_eq!(runner.phase, RunnerPhase::SettingPlaying);
    runner.advance(RunnerEvent::PlayingSet(false));
    assert_eq!(runner.phase, RunnerPhase::Waiting);
    runner.start(Some(ElementState::Paused));
    runner.advance(RunnerEvent::PlayingSet(true));
    assert_eq!(runner.phase, RunnerPhase::AwaitingPlaying);
    runner.advance(RunnerEvent::PlayingReached(true));
    assert_eq!(runner.phase, RunnerPhase::Running);
    runner.advance(RunnerEvent::Ticked(Look::Moving));
    assert!(runner.is_running());
    runner.advance(RunnerEvent::Ticked(Look::NoPosition));
    assert_eq!(runner.phase, RunnerPhase::Ended(RunnerEnd::NoPosition));
    assert!(!runner.is_running());
    runner.start(Some(ElementState::Null));
    assert_eq!(runner.phase, RunnerPhase::Ended(RunnerEnd::NoPosition));

    let mut gone = PipelineRunner::try_new(false, &video);
    gone.start(None);
    assert_eq!(gone.phase, RunnerPhase::Ended(RunnerEnd::PipelineGone));
    let mut closed = PipelineRunner::try_new(false, &video);
    closed.advance(RunnerEvent::StartChannelClosed);
    assert_eq!(
        closed.phase,
        RunnerPhase::Ended(RunnerEnd::StartChannelClosed)
    );
    let mut finished = PipelineRunner::try_new(false, &video);
    finished.advance(RunnerEvent::Finished);
    assert_eq!(finished.phase, RunnerPhase::Ended(RunnerEnd::Finished));
    let mut stuck = PipelineRunner::try_new(false, &video);
    stuck.start(Some(ElementState::Playing));
    stuck.advance(RunnerEvent::PlayingReached(false));
    assert_eq!(stuck.phase, RunnerPhase::Ended(RunnerEnd::NotPlaying));
    let redirect = CaptureConfiguration::REDIRECT(RedirectCaptureConfiguration {});
    let mut redirected = PipelineRunner::try_new(false, &redirect);
    redirected.start(Some(ElementState::Playing));
    redirected.advance(RunnerEvent::PlayingReached(true));
    assert_eq!(
        redirected.phase,
        RunnerPhase::Ended(RunnerEnd::NotInitialized)
    );
}

#[test]
fn bus_messages_end_or_adjust_the_pipeline() {
    assert_eq!(on_bus_message(BusMessage::Eos), BusAction::Finish);
    assert_eq!(on_bus_message(BusMessage::Error), BusAction::Finish);
    assert_eq!(on_bus_message(BusMessage::Latency), BusAction::RecalculateLatency);
    assert_eq!(on_bus_message(BusMessage::Other), BusAction::Nothing);
    let changed = BusMessage::StateChanged {
        from: ElementState::Ready,
        to: ElementState::Paused,
    };
    assert_eq!(on_bus_message(changed), BusAction::Nothing);
    assert_eq!(
        dump_name(ID, changed).unwrap(),
        format!("pipeline-{ID_TEXT}-Ready-to-Paused")
    );
    assert_eq!(
        dump_name(ID, BusMessage::Eos).unwrap(),
        format!("pipeline-{ID_TEXT}-eos")
    );
    assert_eq!(
        dump_name(ID, BusMessage::Error).unwrap(),
        format!("pipeline-{ID_TEXT}-error")
    );
    assert!(dump_name(ID, BusMessage::Latency).is_none());
}

const OFFSET: u64 = 1 << 32;

fn ids() -> ControlIds {
    ControlIds::new(OFFSET, OFFSET + 1, OFFSET + 2)
        .expect("identities in the namespace")
}

fn control(name: &str, id: u64, configuration: ControlType) -> Control {
    Control {
        name: name.to_string(),
        element: "x264enc".to_string(),
        cpp_type: "int".to_string(),
        id: OFFSET + id,
        state: ControlState {
            is_disabled: false,
            is_inactive: true,
        },
        configuration,
        mutable_in_playing: false,
        requires_restart: true,
    }
}

/// An encoder with one control of each kind, and one that holds text.
fn encoder() -> Encoder {
    let mut bitrate = control(
        "bitrate",
        10,
        ControlType::Slider(ControlSlider {
            default: 2048,
            value: 2048,
            step: 1,
            max: 100_000,
            min: 1,
        }),
    );
    bitrate.mutable_in_playing = true;
    bitrate.requires_restart = false;
    let mut text = control("option-string", 14, ControlType::Flags(ControlFlags { default: 0, value: 0 }));
    text.cpp_type = "string".to_string();
    Encoder {
        controls: vec![
            bitrate,
            control("dct8x8", 11, ControlType::Bool(ControlBool { default: 0, value: 0 })),
            control(
                "speed-preset",
                12,
                ControlType::Menu(ControlMenu {
                    default: 6,
                    value: 6,
                    options: vec![ControlOption {
                        name: "ultrafast".to_string(),
                        value: 1,
                    }],
                }),
            ),
            control("tune", 13, ControlType::Flags(ControlFlags { default: 0, value: 0 })),
            text,
        ],
        probe: Probe {
            nicks: vec![
                Nick {
                    property: "speed-preset".to_string(),
                    nick: "ultrafast".to_string(),
                    value: 1,
                },
                Nick {
                    property: "speed-preset".to_string(),
                    nick: "medium".to_string(),
                    value: 6,
                },
            ],
        },
        live: vec![],
    }
}

fn transcoded() -> TranscodedStream {
    fake_video_and_stream(VideoEncodeType::Nv12, VideoEncodeType::H264, manual("x264enc", ""))
}

#[test]
fn pipeline_control_ids_are_in_pipeline_namespace() {
    let bitrate_id = encoder().controls[0].id;
    assert!(bitrate_id >= OFFSET);
    assert!(is_pipeline_control_id(&ids(), bitrate_id));
    assert!(!is_pipeline_control_id(&ids(), OFFSET - 1));
}

#[test]
fn synthetic_control_ids_are_in_pipeline_namespace() {
    let ids = ids();
    assert!(auto_restart_control_id(&ids) >= OFFSET);
    assert!(restart_stream_control_id(&ids) >= OFFSET);
    assert_ne!(auto_restart_control_id(&ids), restart_stream_control_id(&ids));
    assert!(ControlIds::new(OFFSET, OFFSET - 1, OFFSET).is_none());
    assert!(ControlIds::new(OFFSET, OFFSET, OFFSET).is_none());
}

#[test]
fn controls_are_listed_with_their_values() {
    let list = list_pipeline_controls(&ids(), &transcoded(), encoder());
    assert_eq!(list.len(), 7);
    assert_eq!(list[5].name, "auto-restart-on-config-change");
    assert_eq!(list[6].name, "restart-stream");
    assert_eq!(list[6].element, "stream");
    assert_eq!(list[6].cpp_type, "bool");
    assert!(list[6].mutable_in_playing && !list[6].requires_restart);
    assert_eq!(list[6].state, ControlState::default());
    assert!(!list[5].state.is_disabled && !list[5].state.is_inactive);
    assert!(list[0].state.is_inactive);
    let plain = fake_video_and_stream(
        VideoEncodeType::Nv12,
        VideoEncodeType::H264,
        SourceConfiguration::Classic,
    );
    assert_eq!(list_pipeline_controls(&ids(), &plain, encoder()).len(), 2);
    let carried = pipeline_controls_for_mavlink(&ids(), &transcoded(), encoder());
    assert_eq!(carried.len(), 6);
    assert!(carried.iter().all(|c| c.cpp_type != "string"));
}

#[test]
fn what_was_set_is_read_back() {
    let mut stream = transcoded();
    for (id, value) in [(10, 5000), (11, 1), (12, 1), (12, 6), (13, 4)] {
        set_pipeline_control(
            &ids(),
            &mut stream,
            encoder(),
            LiveWrite::NoEncoder,
            OFFSET + id,
            value,
        )
        .unwrap();
        assert_eq!(
            pipeline_control_value_by_id(&ids(), &stream, encoder(), OFFSET + id),
            Ok(value)
        );
    }
    let TranscodingCapture::Video(configuration) = &stream.configuration else {
        panic!("not video");
    };
    let SourceConfiguration::ManualTranscoding(config) = &configuration.source_configuration else {
        panic!("not manual");
    };
    let names: Vec<&str> = config
        .encoder_properties
        .iter()
        .map(|p| p.name.as_str())
        .collect();
    assert_eq!(names, ["bitrate", "dct8x8", "speed-preset", "tune"]);
    assert!(matches!(
        &config.encoder_properties[2].value,
        EncoderValue::Text(nick) if nick == "medium"
    ));

    assert!(reset_pipeline_controls(&mut stream).restart_needed);
    assert_eq!(
        pipeline_control_value_by_id(&ids(), &stream, encoder(), OFFSET + 10),
        Ok(2048)
    );
}

#[test]
fn stream_controls_read_back_their_state() {
    let mut stream = transcoded();
    let ids = ids();
    for value in [1, 0, 1] {
        for control_id in [auto_restart_control_id(&ids), restart_stream_control_id(&ids)] {
            set_pipeline_control(
                &ids,
                &mut stream,
                encoder(),
                LiveWrite::NoEncoder,
                control_id,
                value,
            )
            .unwrap();
        }
        assert_eq!(
            pipeline_control_value_by_id(&ids, &stream, encoder(), auto_restart_control_id(&ids)),
            Ok(value)
        );
        assert_eq!(
            pipeline_control_value_by_id(&ids, &stream, encoder(), restart_stream_control_id(&ids)),
            Ok(0)
        );
    }
}

#[test]
fn restarts_follow_from_controls() {
    let mut stream = transcoded();
    let ids = ids();
    let mut set = |id: u64, value: i64, live: LiveWrite| {
        set_pipeline_control(&ids, &mut stream, encoder(), live, OFFSET + id, value)
    };
    let quiet = ControlOutcome {
        restart: false,
        restart_needed: false,
    };
    let needed = ControlOutcome {
        restart: false,
        restart_needed: true,
    };
    let restart = ControlOutcome {
        restart: true,
        restart_needed: false,
    };
    assert_eq!(set(2, 1, LiveWrite::NoEncoder), Ok(restart));
    assert_eq!(set(2, 0, LiveWrite::NoEncoder), Ok(quiet));
    assert_eq!(set(11, 1, LiveWrite::NoEncoder), Ok(needed));
    assert_eq!(set(10, 1, LiveWrite::Written), Ok(quiet));
    assert_eq!(set(1, 1, LiveWrite::NoEncoder), Ok(quiet));
    assert_eq!(set(11, 0, LiveWrite::NoEncoder), Ok(restart));
    assert_eq!(set(10, 1, LiveWrite::Failed), Err(ControlError::LiveFailed));
    assert_eq!(set(99, 1, LiveWrite::NoEncoder), Err(ControlError::NotFound));
    assert_eq!(
        pipeline_control_value_by_id(&ids, &stream, encoder(), OFFSET + 1),
        Ok(1)
    );
    let error = pipeline_control_value_by_id(&ids, &stream, encoder(), 99).unwrap_err();
    assert_eq!(error.message(), "Pipeline control 99 not found");
}

#[test]
fn running_encoders_have_the_last_word() {
    let mut encoder = encoder();
    encoder.live = vec![LiveValue {
        name: "bitrate".to_string(),
        property: LiveProperty::U32(777),
    }];
    assert_eq!(
        pipeline_control_value_by_id(&ids(), &transcoded(), encoder, OFFSET + 10),
        Ok(777)
    );
    assert_eq!(
        live_write_wanted(&ids(), &transcoded(), self::encoder(), OFFSET + 10).as_deref(),
        Some("bitrate")
    );
    assert!(live_write_wanted(&ids(), &transcoded(), self::encoder(), OFFSET + 11).is_none());
    assert!(live_write_wanted(&ids(), &transcoded(), self::encoder(), OFFSET + 1).is_none());
    assert_eq!(read_property_as_api(LiveProperty::Enum(-2)), Some(-2));
    assert_eq!(read_property_as_api(LiveProperty::Bool(true)), Some(1));
    assert_eq!(read_property_as_api(LiveProperty::I32(-5)), Some(-5));
    assert_eq!(read_property_as_api(LiveProperty::I64(i64::MIN)), Some(i64::MIN));
    assert_eq!(read_property_as_api(LiveProperty::U64(u64::MAX)), None);
    assert_eq!(read_property_as_api(LiveProperty::U64(9)), Some(9));
    assert_eq!(read_property_as_api(LiveProperty::Float(1500)), Some(1500));
    assert_eq!(read_property_as_api(LiveProperty::Unsupported), None);
}

#[test]
fn streams_without_an_encoder_take_no_controls() {
    let mut stream = transcoded();
    stream.configuration = TranscodingCapture::Redirect;
    let result = set_pipeline_control(
        &ids(),
        &mut stream,
        encoder(),
        LiveWrite::NoEncoder,
        OFFSET + 10,
        1,
    );
    assert_eq!(result, Err(ControlError::NotFound));
    assert_eq!(encoder_factory_name(&stream), "x264enc");
}
