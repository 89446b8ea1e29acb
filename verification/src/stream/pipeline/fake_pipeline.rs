//! Pipelines that show a test picture.
use vstd::prelude::*;

use crate::stream::element::{ElementSpec, ElementView, PropertyValue, PropertyValueView};
use crate::stream::peer_id::PeerId;
use crate::stream::pipeline::parts::{
    part_name, parts_of, pipeline_name, PartsView, PipelineNames, PipelineParts, Platform, Shape,
};
use crate::stream::transcoding_types::{
    SourceConfiguration, TranscodedStream, TranscodingCapture, TranscodingCaptureConfiguration,
};
use crate::stream::types::{
    EncodeView, FrameInterval, VideoEncodeType, VideoSourceGstType, VideoSourceType,
};
use crate::text::{append_u64, contains_text, decimal, same_text, texts};

verus! {

/// Why no pipeline is made.
#[derive(Clone, Copy, Debug, PartialEq, Eq, Structural)]
pub enum FakeError {
    /// Only video is supported.
    Configuration,
    /// Only sources made of elements are supported.
    SourceType,
    /// Only test pictures are supported.
    GstSource,
    /// A test picture is not made in that encoding.
    Encode,
    /// Nothing is transcoded by hand to that encoding.
    SinkEncode,
}

/// A test picture in H264, as a pipeline description.
pub open spec fn h264_text(pattern: Seq<char>, parts: PartsView, shape: Shape, format: Seq<char>, encoder: Seq<char>) -> Seq<char> {
    "videotestsrc pattern="@
        + pattern
        + " is-live=true do-timestamp=true ! timeoverlay ! video/x-raw,format="@
        + format
        + encoder
        + " ! h264parse config-interval=-1 ! capsfilter name="@
        + parts.filter
        + " caps=video/x-h264,stream-format=avc,alignment=au,width="@
        + decimal(shape.width as nat)
        + ",height="@
        + decimal(shape.height as nat)
        + ",framerate="@
        + decimal(shape.interval.denominator as nat)
        + "/"@
        + decimal(shape.interval.numerator as nat)
        + ",profile=constrained-baseline ! tee name="@
        + parts.video_tee
        + " allow-not-linked=true ! rtph264pay aggregate-mode=zero-latency config-interval=-1 pt=96 ! tee name="@
        + parts.rtp_tee
        + " allow-not-linked=true"@
}

fn h264_description(pattern: &str, parts: &PipelineParts, shape: Shape, format: &str, encoder: &str) -> (r: String)
    ensures
        r@ == h264_text(pattern@, parts@, shape, format@, encoder@),
{
    let mut s = "videotestsrc pattern=".to_owned();
    s.append(pattern);
    s.append(" is-live=true do-timestamp=true ! timeoverlay ! video/x-raw,format=");
    s.append(format);
    s.append(encoder);
    s.append(" ! h264parse config-interval=-1 ! capsfilter name=");
    s.append(parts.filter.as_str());
    s.append(" caps=video/x-h264,stream-format=avc,alignment=au,width=");
    append_u64(&mut s, shape.width as u64);
    s.append(",height=");
    append_u64(&mut s, shape.height as u64);
    s.append(",framerate=");
    append_u64(&mut s, shape.interval.denominator as u64);
    s.append("/");
    append_u64(&mut s, shape.interval.numerator as u64);
    s.append(",profile=constrained-baseline ! tee name=");
    s.append(parts.video_tee.as_str());
    s.append(" allow-not-linked=true ! rtph264pay aggregate-mode=zero-latency config-interval=-1 pt=96 ! tee name=");
    s.append(parts.rtp_tee.as_str());
    s.append(" allow-not-linked=true");
    s
}

/// A test picture in H265, as a pipeline description.
pub open spec fn h265_text(pattern: Seq<char>, parts: PartsView, shape: Shape, format: Seq<char>, encoder: Seq<char>) -> Seq<char> {
    "videotestsrc pattern="@
        + pattern
        + " is-live=true do-timestamp=true ! timeoverlay ! video/x-raw,format="@
        + format
        + encoder
        + " ! h265parse config-interval=-1 ! capsfilter name="@
        + parts.filter
        + " caps=video/x-h265,profile=main,stream-format=byte-stream,alignment=au,width="@
        + decimal(shape.width as nat)
        + ",height="@
        + decimal(shape.height as nat)
        + ",framerate="@
        + decimal(shape.interval.denominator as nat)
        + "/"@
        + decimal(shape.interval.numerator as nat)
        + " ! tee name="@
        + parts.video_tee
        + " allow-not-linked=true ! rtph265pay aggregate-mode=zero-latency config-interval=-1 pt=96 ! tee name="@
        + parts.rtp_tee
        + " allow-not-linked=true"@
}

fn h265_description(pattern: &str, parts: &PipelineParts, shape: Shape, format: &str, encoder: &str) -> (r: String)
    ensures
        r@ == h265_text(pattern@, parts@, shape, format@, encoder@),
{
    let mut s = "videotestsrc pattern=".to_owned();
    s.append(pattern);
    s.append(" is-live=true do-timestamp=true ! timeoverlay ! video/x-raw,format=");
    s.append(format);
    s.append(encoder);
    s.append(" ! h265parse config-interval=-1 ! capsfilter name=");
    s.append(parts.filter.as_str());
    s.append(" caps=video/x-h265,profile=main,stream-format=byte-stream,alignment=au,width=");
    append_u64(&mut s, shape.width as u64);
    s.append(",height=");
    append_u64(&mut s, shape.height as u64);
    s.append(",framerate=");
    append_u64(&mut s, shape.interval.denominator as u64);
    s.append("/");
    append_u64(&mut s, shape.interval.numerator as u64);
    s.append(" ! tee name=");
    s.append(parts.video_tee.as_str());
    s.append(" allow-not-linked=true ! rtph265pay aggregate-mode=zero-latency config-interval=-1 pt=96 ! tee name=");
    s.append(parts.rtp_tee.as_str());
    s.append(" allow-not-linked=true");
    s
}

/// A test picture in raw, as a pipeline description.
pub open spec fn yuyv_text(pattern: Seq<char>, parts: PartsView, shape: Shape) -> Seq<char> {
    "videotestsrc pattern="@
        + pattern
        + " is-live=true do-timestamp=true ! timeoverlay ! video/x-raw,format=I420 ! capsfilter name="@
        + parts.filter
        + " caps=video/x-raw,format=I420,width="@
        + decimal(shape.width as nat)
        + ",height="@
        + decimal(shape.height as nat)
        + ",framerate="@
        + decimal(shape.interval.denominator as nat)
        + "/"@
        + decimal(shape.interval.numerator as nat)
        + " ! tee name="@
        + parts.video_tee
        + " allow-not-linked=true ! rtpvrawpay pt=96 ! tee name="@
        + parts.rtp_tee
        + " allow-not-linked=true"@
}

fn yuyv_description(pattern: &str, parts: &PipelineParts, shape: Shape) -> (r: String)
    ensures
        r@ == yuyv_text(pattern@, parts@, shape),
{
    let mut s = "videotestsrc pattern=".to_owned();
    s.append(pattern);
    s.append(" is-live=true do-timestamp=true ! timeoverlay ! video/x-raw,format=I420 ! capsfilter name=");
    s.append(parts.filter.as_str());
    s.append(" caps=video/x-raw,format=I420,width=");
    append_u64(&mut s, shape.width as u64);
    s.append(",height=");
    append_u64(&mut s, shape.height as u64);
    s.append(",framerate=");
    append_u64(&mut s, shape.interval.denominator as u64);
    s.append("/");
    append_u64(&mut s, shape.interval.numerator as u64);
    s.append(" ! tee name=");
    s.append(parts.video_tee.as_str());
    s.append(" allow-not-linked=true ! rtpvrawpay pt=96 ! tee name=");
    s.append(parts.rtp_tee.as_str());
    s.append(" allow-not-linked=true");
    s
}

/// A test picture in JPEG, as a pipeline description.
pub open spec fn mjpg_text(pattern: Seq<char>, parts: PartsView, shape: Shape) -> Seq<char> {
    "videotestsrc pattern="@
        + pattern
        + " is-live=true do-timestamp=true ! timeoverlay ! video/x-raw,format=I420 ! jpegenc quality=85 idct-method=1 ! capsfilter name="@
        + parts.filter
        + " caps=image/jpeg,width="@
        + decimal(shape.width as nat)
        + ",height="@
        + decimal(shape.height as nat)
        + ",framerate="@
        + decimal(shape.interval.denominator as nat)
        + "/"@
        + decimal(shape.interval.numerator as nat)
        + " ! tee name="@
        + parts.video_tee
        + " allow-not-linked=true ! rtpjpegpay pt=96 ! tee name="@
        + parts.rtp_tee
        + " allow-not-linked=true"@
}

fn mjpg_description(pattern: &str, parts: &PipelineParts, shape: Shape) -> (r: String)
    ensures
        r@ == mjpg_text(pattern@, parts@, shape),
{
    let mut s = "videotestsrc pattern=".to_owned();
    s.append(pattern);
    s.append(" is-live=true do-timestamp=true ! timeoverlay ! video/x-raw,format=I420 ! jpegenc quality=85 idct-method=1 ! capsfilter name=");
    s.append(parts.filter.as_str());
    s.append(" caps=image/jpeg,width=");
    append_u64(&mut s, shape.width as u64);
    s.append(",height=");
    append_u64(&mut s, shape.height as u64);
    s.append(",framerate=");
    append_u64(&mut s, shape.interval.denominator as u64);
    s.append("/");
    append_u64(&mut s, shape.interval.numerator as u64);
    s.append(" ! tee name=");
    s.append(parts.video_tee.as_str());
    s.append(" allow-not-linked=true ! rtpjpegpay pt=96 ! tee name=");
    s.append(parts.rtp_tee.as_str());
    s.append(" allow-not-linked=true");
    s
}

pub open spec fn raw_format(platform: Platform) -> Seq<char> {
    match platform {
        Platform::Windows => "NV12"@,
        _ => "I420"@,
    }
}

pub open spec fn h264_encoder(platform: Platform) -> Seq<char> {
    match platform {
        Platform::Windows => " ! mfh264enc low-latency=true bitrate=5000"@,
        _ => " ! x264enc tune=zerolatency speed-preset=ultrafast bitrate=5000"@,
    }
}

pub open spec fn h265_encoder(platform: Platform) -> Seq<char> {
    match platform {
        Platform::MacOs =>
            " ! vtenc_h265 allow-frame-reordering=false realtime=true quality=0.0 bitrate=5000"@,
        Platform::Windows => " ! mfh265enc low-latency=true bitrate=5000"@,
        Platform::Linux => " ! x265enc tune=zerolatency speed-preset=ultrafast bitrate=5000"@,
    }
}

/// The description of a test picture in an encoding, where there is one.
pub open spec fn classic_text(
    encode: EncodeView,
    pattern: Seq<char>,
    parts: PartsView,
    shape: Shape,
    platform: Platform,
) -> Option<Seq<char>> {
    match encode {
        EncodeView::H264 => Some(
            h264_text(pattern, parts, shape, raw_format(platform), h264_encoder(platform)),
        ),
        EncodeView::H265 => Some(
            h265_text(pattern, parts, shape, raw_format(platform), h265_encoder(platform)),
        ),
        EncodeView::Yuyv => Some(yuyv_text(pattern, parts, shape)),
        EncodeView::Mjpg => Some(mjpg_text(pattern, parts, shape)),
        _ => None,
    }
}

fn try_new_classic(
    encode: &VideoEncodeType,
    pattern: &str,
    parts: &PipelineParts,
    shape: Shape,
    platform: Platform,
) -> (r: Result<String, FakeError>)
    ensures
        match r {
            Ok(description) => classic_text(encode@, pattern@, parts@, shape, platform) == Some(
                description@,
            ),
            Err(error) => classic_text(encode@, pattern@, parts@, shape, platform) is None && error
                == FakeError::Encode,
        },
{
    let format = match platform {
        Platform::Windows => "NV12",
        _ => "I420",
    };
    match encode {
        VideoEncodeType::H264 => {
            let encoder = match platform {
                Platform::Windows => " ! mfh264enc low-latency=true bitrate=5000",
                _ => " ! x264enc tune=zerolatency speed-preset=ultrafast bitrate=5000",
            };
            Ok(h264_description(pattern, parts, shape, format, encoder))
        },
        VideoEncodeType::H265 => {
            let encoder = match platform {
                Platform::MacOs =>
                    " ! vtenc_h265 allow-frame-reordering=false realtime=true quality=0.0 bitrate=5000",
                Platform::Windows => " ! mfh265enc low-latency=true bitrate=5000",
                Platform::Linux => " ! x265enc tune=zerolatency speed-preset=ultrafast bitrate=5000",
            };
            Ok(h265_description(pattern, parts, shape, format, encoder))
        },
        VideoEncodeType::Yuyv => Ok(yuyv_description(pattern, parts, shape)),
        VideoEncodeType::Mjpg => Ok(mjpg_description(pattern, parts, shape)),
        _ => Err(FakeError::Encode),
    }
}

/// What is known of the encodings of a stream that is transcoded.
#[derive(Clone, Copy, Debug, PartialEq, Eq, Structural)]
pub struct EncodeFacts {
    /// The source is raw video.
    pub raw_source: bool,
    /// The stream is raw video.
    pub raw_sink: bool,
    /// The stream can be sent in its encoding.
    pub sendable_sink: bool,
}

/// The test source of a pipeline that transcodes.
pub enum FakeSource {
    /// The source that the pipeline has is set up, and a converter comes after
    /// it.
    Raw { settings: ElementSpec, converter: ElementSpec },
    /// The pipeline has no source: one is put in front of its first filter.
    Compressed,
}

/// What a [`FakeSource`] stands for.
pub enum FakeSourceView {
    Raw { settings: ElementView, converter: ElementView },
    Compressed,
}

impl View for FakeSource {
    type V = FakeSourceView;

    open spec fn view(&self) -> FakeSourceView {
        match self {
            FakeSource::Raw { settings, converter } => FakeSourceView::Raw {
                settings: settings@,
                converter: converter@,
            },
            FakeSource::Compressed => FakeSourceView::Compressed,
        }
    }
}

/// A test picture, where the element has the properties for it.
pub open spec fn test_source_view(pattern: Seq<char>) -> ElementView {
    ElementView::of("videotestsrc"@).named("source"@).if_known(
        "pattern"@,
        PropertyValueView::Text(pattern),
    ).if_known("is-live"@, PropertyValueView::Bool(true)).if_known(
        "do-timestamp"@,
        PropertyValueView::Bool(true),
    )
}

fn test_source(pattern: &str) -> (r: ElementSpec)
    ensures
        r@ == test_source_view(pattern@),
{
    ElementSpec::of("videotestsrc").named("source").if_known(
        "pattern",
        PropertyValue::Text(pattern.to_owned()),
    ).if_known("is-live", PropertyValue::Bool(true)).if_known(
        "do-timestamp",
        PropertyValue::Bool(true),
    )
}

pub open spec fn fake_source_view(pattern: Seq<char>, raw: bool) -> FakeSourceView {
    if raw {
        FakeSourceView::Raw {
            settings: test_source_view(pattern),
            converter: ElementView::of("videoconvert"@).named("fake-source-videoconvert"@),
        }
    } else {
        FakeSourceView::Compressed
    }
}

/// How a pipeline with a test picture is made.
pub enum FakePlan {
    /// From a description.
    Classic { description: String },
    /// From a pipeline that transcodes, whose source is then replaced.
    Transcoding {
        manual: bool,
        /// The element that the pipeline takes its video from, where it makes
        /// one itself.
        source_factory: Option<String>,
        /// The frame interval that the pipeline is told, where it has to be.
        frame_interval: Option<FrameInterval>,
        source: FakeSource,
    },
}

/// What a [`FakePlan`] stands for.
pub enum FakePlanView {
    Classic { description: Seq<char> },
    Transcoding {
        manual: bool,
        source_factory: Option<Seq<char>>,
        frame_interval: Option<FrameInterval>,
        source: FakeSourceView,
    },
}

impl View for FakePlan {
    type V = FakePlanView;

    open spec fn view(&self) -> FakePlanView {
        match self {
            FakePlan::Classic { description } => FakePlanView::Classic {
                description: description@,
            },
            FakePlan::Transcoding {
                manual,
                source_factory,
                frame_interval,
                source,
            } => FakePlanView::Transcoding {
                manual: *manual,
                source_factory: match source_factory {
                    Some(factory) => Some(factory@),
                    None => None,
                },
                frame_interval: *frame_interval,
                source: source@,
            },
        }
    }
}

/// A pipeline with a test picture.
pub struct FakePipeline {
    pub name: String,
    pub plan: FakePlan,
}

/// How video is transcoded that starts from a test picture.
pub open spec fn transcoding_plan(
    configuration: TranscodingCaptureConfiguration,
    pattern: Seq<char>,
    facts: EncodeFacts,
) -> Result<FakePlanView, FakeError> {
    let manual = configuration.source_configuration is ManualTranscoding;
    if manual && !facts.sendable_sink && !facts.raw_sink {
        Err(FakeError::SinkEncode)
    } else {
        Ok(
            FakePlanView::Transcoding {
                manual,
                source_factory: if facts.raw_source {
                    Some("videotestsrc"@)
                } else {
                    None
                },
                frame_interval: if manual && !facts.raw_source {
                    Some(configuration.frame_interval)
                } else {
                    None
                },
                source: fake_source_view(pattern, facts.raw_source),
            },
        )
    }
}

/// How a stream from a test picture is made, or why it is not.
pub open spec fn fake_plan(
    stream: TranscodedStream,
    id: PeerId,
    names: PipelineNames,
    platform: Platform,
    facts: EncodeFacts,
) -> Result<FakePlanView, FakeError> {
    match stream.configuration {
        TranscodingCapture::Redirect => Err(FakeError::Configuration),
        TranscodingCapture::Video(configuration) => match stream.video_source {
            VideoSourceType::Gst(source) => match source.source {
                VideoSourceGstType::Fake(pattern) => match configuration.source_configuration {
                    SourceConfiguration::Classic => {
                        let shape = Shape {
                            width: configuration.width,
                            height: configuration.height,
                            interval: configuration.frame_interval,
                        };
                        match classic_text(
                            configuration.source_encode@,
                            pattern@,
                            parts_of(names, id),
                            shape,
                            platform,
                        ) {
                            Some(description) => Ok(FakePlanView::Classic { description }),
                            None => Err(FakeError::Encode),
                        }
                    },
                    _ => transcoding_plan(configuration, pattern@, facts),
                },
                _ => Err(FakeError::GstSource),
            },
            _ => Err(FakeError::SourceType),
        },
    }
}

impl FakePipeline {
    fn try_new_transcoding(
        configuration: &TranscodingCaptureConfiguration,
        pattern: &str,
        facts: EncodeFacts,
    ) -> (r: Result<FakePlan, FakeError>)
        ensures
            match r {
                Ok(plan) => transcoding_plan(*configuration, pattern@, facts) == Ok::<
                    FakePlanView,
                    FakeError,
                >(plan@),
                Err(error) => transcoding_plan(*configuration, pattern@, facts) == Err::<
                    FakePlanView,
                    FakeError,
                >(error),
            },
    {
        let manual = match configuration.source_configuration {
            SourceConfiguration::ManualTranscoding(_) => true,
            _ => false,
        };
        if manual && !facts.sendable_sink && !facts.raw_sink {
            return Err(FakeError::SinkEncode);
        }
        let frame_interval = if manual && !facts.raw_source {
            Some(configuration.frame_interval)
        } else {
            None
        };
        let (source_factory, source) = if facts.raw_source {
            (
                Some("videotestsrc".to_owned()),
                FakeSource::Raw {
                    settings: test_source(pattern),
                    converter: ElementSpec::of("videoconvert").named("fake-source-videoconvert"),
                },
            )
        } else {
            (None, FakeSource::Compressed)
        };
        Ok(FakePlan::Transcoding { manual, source_factory, frame_interval, source })
    }

    /// Plans a pipeline for a stream from a test picture.
    pub fn try_new(
        id: PeerId,
        stream: &TranscodedStream,
        names: &PipelineNames,
        platform: Platform,
        facts: EncodeFacts,
    ) -> (r: Result<FakePipeline, FakeError>)
        ensures
            match r {
                Ok(pipeline) => fake_plan(*stream, id, *names, platform, facts) == Ok::<
                    FakePlanView,
                    FakeError,
                >(pipeline.plan@) && pipeline.name@ == part_name("pipeline-fake"@, id),
                Err(error) => fake_plan(*stream, id, *names, platform, facts) == Err::<
                    FakePlanView,
                    FakeError,
                >(error),
            },
    {
        let configuration = match &stream.configuration {
            TranscodingCapture::Video(configuration) => configuration,
            TranscodingCapture::Redirect => {
                return Err(FakeError::Configuration);
            },
        };
        let pattern = match &stream.video_source {
            VideoSourceType::Gst(source) => match &source.source {
                VideoSourceGstType::Fake(pattern) => pattern.as_str(),
                VideoSourceGstType::Other(_) => {
                    return Err(FakeError::GstSource);
                },
            },
            _ => {
                return Err(FakeError::SourceType);
            },
        };
        let plan = match &configuration.source_configuration {
            SourceConfiguration::Classic => {
                let parts = names.parts(id);
                let shape = Shape {
                    width: configuration.width,
                    height: configuration.height,
                    interval: configuration.frame_interval,
                };
                match try_new_classic(
                    &configuration.source_encode,
                    pattern,
                    &parts,
                    shape,
                    platform,
                ) {
                    Ok(description) => FakePlan::Classic { description },
                    Err(error) => {
                        return Err(error);
                    },
                }
            },
            _ => match Self::try_new_transcoding(configuration, pattern, facts) {
                Ok(plan) => plan,
                Err(error) => {
                    return Err(error);
                },
            },
        };
        Ok(FakePipeline { name: pipeline_name("pipeline-fake", id), plan })
    }
}

/// Why no compressed test source is made.
#[derive(Clone, Copy, Debug, PartialEq, Eq, Structural)]
pub enum CompressedError {
    /// Test pictures are not compressed that way.
    Encode,
    /// The filter that was found has no input.
    NoSinkPad,
    /// No filter is waiting for that kind of video.
    NoFilter,
    /// The encoder is not installed.
    EncoderUnavailable,
}

/// The kind of data that compressed video of an encoding is.
pub open spec fn mime_of(encode: EncodeView) -> Option<Seq<char>> {
    match encode {
        EncodeView::H264 => Some("video/x-h264"@),
        EncodeView::H265 => Some("video/x-h265"@),
        EncodeView::Mjpg => Some("image/jpeg"@),
        _ => None,
    }
}

fn mime(encode: &VideoEncodeType) -> (r: Option<&'static str>)
    ensures
        match r {
            Some(m) => mime_of(encode@) == Some(m@),
            None => mime_of(encode@) is None,
        },
{
    match encode {
        VideoEncodeType::H264 => Some("video/x-h264"),
        VideoEncodeType::H265 => Some("video/x-h265"),
        VideoEncodeType::Mjpg => Some("image/jpeg"),
        _ => None,
    }
}

/// What is found out about an element of a pipeline.
pub struct FoundElement {
    pub factory: Option<String>,
    /// The kind of data that it filters for, where it does.
    pub mime: Option<String>,
    /// Whether its input is linked, where it has one.
    pub sink_linked: Option<bool>,
}

impl FoundElement {
    /// A filter for data of the kind.
    pub open spec fn filters(self, mime: Seq<char>) -> bool {
        &&& self.factory is Some
        &&& self.factory->0@ == "capsfilter"@
        &&& self.mime is Some
        &&& self.mime->0@ == mime
    }

    /// The search for a free input ends at this element.
    pub open spec fn stops(self, mime: Seq<char>) -> bool {
        self.filters(mime) && self.sink_linked != Some(true)
    }

    fn is_filter(&self, mime: &str) -> (r: bool)
        ensures
            r == self.filters(mime@),
    {
        match (&self.factory, &self.mime) {
            (Some(factory), Some(its_mime)) => same_text(factory.as_str(), "capsfilter")
                && same_text(its_mime.as_str(), mime),
            _ => false,
        }
    }
}

/// The search for a free input ends at position `i`.
pub open spec fn first_stop(elements: Seq<FoundElement>, mime: Seq<char>, i: int) -> bool {
    &&& 0 <= i < elements.len()
    &&& elements[i].stops(mime)
    &&& forall|j: int| 0 <= j < i ==> !(#[trigger] elements[j]).stops(mime)
}

/// The search for a free input ends nowhere.
pub open spec fn never_stops(elements: Seq<FoundElement>, mime: Seq<char>) -> bool {
    forall|j: int| 0 <= j < elements.len() ==> !(#[trigger] elements[j]).stops(mime)
}

/// Finds the filter that a compressed test source is put in front of: the first
/// one for its kind of data that nothing is linked to.
pub fn unlinked_static_sink_pad(elements: &Vec<FoundElement>, encode: &VideoEncodeType) -> (r:
    Result<usize, CompressedError>)
    ensures
        match r {
            Ok(i) => {
                &&& mime_of(encode@) is Some
                &&& first_stop(elements@, mime_of(encode@)->0, i as int)
                &&& elements@[i as int].sink_linked == Some(false)
            },
            Err(CompressedError::Encode) => mime_of(encode@) is None,
            Err(CompressedError::NoSinkPad) => mime_of(encode@) is Some && exists|i: int|
                #[trigger] first_stop(elements@, mime_of(encode@)->0, i)
                    && elements@[i].sink_linked is None,
            Err(CompressedError::NoFilter) => mime_of(encode@) is Some && never_stops(
                elements@,
                mime_of(encode@)->0,
            ),
            Err(CompressedError::EncoderUnavailable) => false,
        },
{
    let expected = match mime(encode) {
        Some(expected) => expected,
        None => {
            return Err(CompressedError::Encode);
        },
    };
    let mut i: usize = 0;
    while i < elements.len()
        invariant
            i <= elements.len(),
            mime_of(encode@) == Some(expected@),
            forall|j: int| 0 <= j < i ==> !(#[trigger] elements@[j]).stops(expected@),
        decreases elements.len() - i,
    {
        if elements[i].is_filter(expected) {
            match elements[i].sink_linked {
                None => {
                    assert(first_stop(elements@, mime_of(encode@)->0, i as int));
                    assert(elements@[i as int].sink_linked is None);
                    return Err(CompressedError::NoSinkPad);
                },
                Some(linked) => {
                    if !linked {
                        return Ok(i);
                    }
                },
            }
        }
        i += 1;
    }
    Err(CompressedError::NoFilter)
}

/// The encoder that compresses a test picture.
pub open spec fn fake_encoder_of(encode: EncodeView, platform: Platform) -> Option<Seq<char>> {
    match encode {
        EncodeView::H264 => Some(
            match platform {
                Platform::Windows => "mfh264enc"@,
                _ => "x264enc"@,
            },
        ),
        EncodeView::H265 => Some(
            match platform {
                Platform::MacOs => "vtenc_h265"@,
                Platform::Windows => "mfh265enc"@,
                Platform::Linux => "x265enc"@,
            },
        ),
        EncodeView::Mjpg => Some("jpegenc"@),
        _ => None,
    }
}

/// Picks the encoder that compresses a test picture, if it is among those that
/// are installed.
pub fn fake_compressed_encoder_factory(
    encode: &VideoEncodeType,
    platform: Platform,
    installed: &Vec<String>,
) -> (r: Result<&'static str, CompressedError>)
    ensures
        match r {
            Ok(factory) => fake_encoder_of(encode@, platform) == Some(factory@) && texts(
                installed@,
            ).contains(factory@),
            Err(error) => match fake_encoder_of(encode@, platform) {
                None => error == CompressedError::Encode,
                Some(factory) => error == CompressedError::EncoderUnavailable && !texts(
                    installed@,
                ).contains(factory),
            },
        },
{
    let factory = match encode {
        VideoEncodeType::H264 => match platform {
            Platform::Windows => "mfh264enc",
            _ => "x264enc",
        },
        VideoEncodeType::H265 => match platform {
            Platform::MacOs => "vtenc_h265",
            Platform::Windows => "mfh265enc",
            Platform::Linux => "x265enc",
        },
        VideoEncodeType::Mjpg => "jpegenc",
        _ => {
            return Err(CompressedError::Encode);
        },
    };
    if !contains_text(installed, factory) {
        return Err(CompressedError::EncoderUnavailable);
    }
    Ok(factory)
}

/// The elements of a compressed test source, to be linked in order and then to
/// the filter: source, converter, encoder, and a parser where one is needed.
pub struct CompressedSource {
    pub source: ElementSpec,
    pub converter: ElementSpec,
    pub encoder: ElementSpec,
    pub parser: Option<ElementSpec>,
}

/// The encoder, fast rather than good, where it has the properties for it.
pub open spec fn fake_encoder_view(factory: Seq<char>) -> ElementView {
    ElementView::of(factory).named("fake-source-encoder"@).if_known(
        "tune"@,
        PropertyValueView::Text("zerolatency"@),
    ).if_known("speed-preset"@, PropertyValueView::Text("ultrafast"@)).if_known(
        "low-latency"@,
        PropertyValueView::Bool(true),
    ).if_known("bitrate"@, PropertyValueView::Text("5000"@))
}

/// The parser that comes after the encoder.
pub open spec fn parser_view(encode: EncodeView) -> Option<ElementView> {
    match encode {
        EncodeView::H264 => Some(
            ElementView::of("h264parse"@).if_known("config-interval"@, PropertyValueView::Int((-1) as i32)),
        ),
        EncodeView::H265 => Some(
            ElementView::of("h265parse"@).if_known("config-interval"@, PropertyValueView::Int((-1) as i32)),
        ),
        _ => None,
    }
}

fn compressed_source_parser(encode: &VideoEncodeType) -> (r: Option<ElementSpec>)
    ensures
        match r {
            Some(parser) => parser_view(encode@) == Some(parser@),
            None => parser_view(encode@) is None,
        },
{
    match encode {
        VideoEncodeType::H264 => Some(
            ElementSpec::of("h264parse").if_known("config-interval", PropertyValue::Int(-1)),
        ),
        VideoEncodeType::H265 => Some(
            ElementSpec::of("h265parse").if_known("config-interval", PropertyValue::Int(-1)),
        ),
        _ => None,
    }
}

/// Plans the compressed test source of a pipeline: which filter it is put in
/// front of, and its elements.
pub fn attach_fake_compressed_source(
    elements: &Vec<FoundElement>,
    encode: &VideoEncodeType,
    pattern: &str,
    platform: Platform,
    installed: &Vec<String>,
) -> (r: Result<(usize, CompressedSource), CompressedError>)
    ensures
        match r {
            Ok((i, source)) => {
                &&& mime_of(encode@) is Some
                &&& first_stop(elements@, mime_of(encode@)->0, i as int)
                &&& elements@[i as int].sink_linked == Some(false)
                &&& fake_encoder_of(encode@, platform) is Some
                &&& texts(installed@).contains(fake_encoder_of(encode@, platform)->0)
                &&& source.source@ == test_source_view(pattern@)
                &&& source.converter@ == ElementView::of("videoconvert"@)
                &&& source.encoder@ == fake_encoder_view(fake_encoder_of(encode@, platform)->0)
                &&& match source.parser {
                    Some(parser) => parser_view(encode@) == Some(parser@),
                    None => parser_view(encode@) is None,
                }
            },
            Err(CompressedError::Encode) => mime_of(encode@) is None,
            Err(CompressedError::EncoderUnavailable) => mime_of(encode@) is Some && !texts(
                installed@,
            ).contains(fake_encoder_of(encode@, platform)->0) && exists|i: int|
                #[trigger] first_stop(elements@, mime_of(encode@)->0, i)
                    && elements@[i].sink_linked == Some(false),
            Err(CompressedError::NoSinkPad) => mime_of(encode@) is Some && exists|i: int|
                #[trigger] first_stop(elements@, mime_of(encode@)->0, i)
                    && elements@[i].sink_linked is None,
            Err(CompressedError::NoFilter) => mime_of(encode@) is Some && never_stops(
                elements@,
                mime_of(encode@)->0,
            ),
        },
{
    let at: usize = match unlinked_static_sink_pad(elements, encode) {
        Ok(at) => at,
        Err(error) => {
            return Err(error);
        },
    };
    assert(first_stop(elements@, mime_of(encode@)->0, at as int));
    let source = test_source(pattern);
    let converter = ElementSpec::of("videoconvert");
    let factory = match fake_compressed_encoder_factory(encode, platform, installed) {
        Ok(factory) => factory,
        Err(error) => {
            return Err(error);
        },
    };
    let encoder = ElementSpec::of(factory).named("fake-source-encoder").if_known(
        "tune",
        PropertyValue::Text("zerolatency".to_owned()),
    ).if_known("speed-preset", PropertyValue::Text("ultrafast".to_owned())).if_known(
        "low-latency",
        PropertyValue::Bool(true),
    ).if_known("bitrate", PropertyValue::Text("5000".to_owned()));
    let parser = compressed_source_parser(encode);
    Ok((at, CompressedSource { source, converter, encoder, parser }))
}

/// Exactly the encodings that a test picture can be compressed to have a kind of
/// data and an encoder on every platform.
pub proof fn compressible_encodings_have_encoders(encode: EncodeView, platform: Platform)
    ensures
        mime_of(encode) is Some <==> fake_encoder_of(encode, platform) is Some,
        parser_view(encode) is Some ==> mime_of(encode) is Some,
{
}

proof fn regroup(x: Seq<char>, a: Seq<char>, b: Seq<char>)
    ensures
        x + (a + b) == x + a + b,
{
    assert(x + (a + b) =~= x + a + b);
}

/// The words that the front of descriptions is written in come apart where their
/// parts meet.
proof fn front_words_come_apart()
    ensures
        " ! h264parse config-interval=-1 ! capsfilter name="@ == " ! h264parse config-interval=-1"@
            + " ! capsfilter name="@,
        " ! h265parse config-interval=-1 ! capsfilter name="@ == " ! h265parse config-interval=-1"@
            + " ! capsfilter name="@,
        " is-live=true do-timestamp=true ! timeoverlay ! video/x-raw,format=I420 ! capsfilter name="@
            == " is-live=true do-timestamp=true ! timeoverlay ! video/x-raw,format="@ + "I420"@
            + " ! capsfilter name="@,
        " is-live=true do-timestamp=true ! timeoverlay ! video/x-raw,format=I420 ! jpegenc quality=85 idct-method=1 ! capsfilter name="@
            == " is-live=true do-timestamp=true ! timeoverlay ! video/x-raw,format="@ + "I420"@
            + " ! jpegenc quality=85 idct-method=1"@ + " ! capsfilter name="@,
{
    reveal_strlit(" ! h264parse config-interval=-1 ! capsfilter name=");
    reveal_strlit(" ! h264parse config-interval=-1");
    reveal_strlit(" ! h265parse config-interval=-1 ! capsfilter name=");
    reveal_strlit(" ! h265parse config-interval=-1");
    reveal_strlit(" ! capsfilter name=");
    reveal_strlit(
        " is-live=true do-timestamp=true ! timeoverlay ! video/x-raw,format=I420 ! capsfilter name=",
    );
    reveal_strlit(
        " is-live=true do-timestamp=true ! timeoverlay ! video/x-raw,format=I420 ! jpegenc quality=85 idct-method=1 ! capsfilter name=",
    );
    reveal_strlit(" is-live=true do-timestamp=true ! timeoverlay ! video/x-raw,format=");
    reveal_strlit("I420");
    reveal_strlit(" ! jpegenc quality=85 idct-method=1");
}

/// The words that the rest of descriptions is written in come apart where their parts
/// meet.
proof fn back_words_come_apart()
    ensures
        " caps=video/x-h264,stream-format=avc,alignment=au,width="@ == " caps="@
            + "video/x-h264,stream-format=avc,alignment=au"@ + ",width="@,
        " caps=video/x-h265,profile=main,stream-format=byte-stream,alignment=au,width="@
            == " caps="@ + "video/x-h265,profile=main,stream-format=byte-stream,alignment=au"@
            + ",width="@,
        " caps=video/x-raw,format=I420,width="@ == " caps="@ + "video/x-raw,format=I420"@
            + ",width="@,
        " caps=image/jpeg,width="@ == " caps="@ + "image/jpeg"@ + ",width="@,
        ",profile=constrained-baseline ! tee name="@ == ",profile=constrained-baseline"@
            + " ! tee name="@,
        " ! tee name="@ == ""@ + " ! tee name="@,
        " allow-not-linked=true ! rtph264pay aggregate-mode=zero-latency config-interval=-1 pt=96 ! tee name="@
            == " allow-not-linked=true ! "@
            + "rtph264pay aggregate-mode=zero-latency config-interval=-1 pt=96"@ + " ! tee name="@,
        " allow-not-linked=true ! rtph265pay aggregate-mode=zero-latency config-interval=-1 pt=96 ! tee name="@
            == " allow-not-linked=true ! "@
            + "rtph265pay aggregate-mode=zero-latency config-interval=-1 pt=96"@ + " ! tee name="@,
        " allow-not-linked=true ! rtpvrawpay pt=96 ! tee name="@ == " allow-not-linked=true ! "@
            + "rtpvrawpay pt=96"@ + " ! tee name="@,
        " allow-not-linked=true ! rtpjpegpay pt=96 ! tee name="@ == " allow-not-linked=true ! "@
            + "rtpjpegpay pt=96"@ + " ! tee name="@,
{
    reveal_strlit(" caps=");
    reveal_strlit(",width=");
    reveal_strlit(" caps=video/x-h264,stream-format=avc,alignment=au,width=");
    reveal_strlit("video/x-h264,stream-format=avc,alignment=au");
    reveal_strlit(" caps=video/x-h265,profile=main,stream-format=byte-stream,alignment=au,width=");
    reveal_strlit("video/x-h265,profile=main,stream-format=byte-stream,alignment=au");
    reveal_strlit(" caps=video/x-raw,format=I420,width=");
    reveal_strlit("video/x-raw,format=I420");
    reveal_strlit(" caps=image/jpeg,width=");
    reveal_strlit("image/jpeg");
    reveal_strlit(",profile=constrained-baseline ! tee name=");
    reveal_strlit(",profile=constrained-baseline");
    reveal_strlit(" ! tee name=");
    reveal_strlit("");
    reveal_strlit(" allow-not-linked=true ! ");
    reveal_strlit(
        " allow-not-linked=true ! rtph264pay aggregate-mode=zero-latency config-interval=-1 pt=96 ! tee name=",
    );
    reveal_strlit("rtph264pay aggregate-mode=zero-latency config-interval=-1 pt=96");
    reveal_strlit(
        " allow-not-linked=true ! rtph265pay aggregate-mode=zero-latency config-interval=-1 pt=96 ! tee name=",
    );
    reveal_strlit("rtph265pay aggregate-mode=zero-latency config-interval=-1 pt=96");
    reveal_strlit(" allow-not-linked=true ! rtpvrawpay pt=96 ! tee name=");
    reveal_strlit("rtpvrawpay pt=96");
    reveal_strlit(" allow-not-linked=true ! rtpjpegpay pt=96 ! tee name=");
    reveal_strlit("rtpjpegpay pt=96");
}

/// A test picture is shown as it was configured, whatever its encoding: in its own
/// pattern, compressed by the encoder of the platform where the encoding is
/// compressed, with a filter that asks for the configured width, height and rate in
/// the media type of the encoding, and through the video tee and the payloader of the
/// encoding to the RTP tee.
pub proof fn test_pictures_are_shown_as_configured(
    encode: EncodeView,
    pattern: Seq<char>,
    parts: PartsView,
    shape: Shape,
    platform: Platform,
)
    requires
        encode is H264 || encode is H265 || encode is Yuyv || encode is Mjpg,
    ensures
        ({
            let windows = platform == Platform::Windows;
            let format = if windows && (encode is H264 || encode is H265) {
                "NV12"@
            } else {
                "I420"@
            };
            let (encoder, parser, media, extra, payloader) = match encode {
                EncodeView::H264 => (
                    if windows {
                        " ! mfh264enc low-latency=true bitrate=5000"@
                    } else {
                        " ! x264enc tune=zerolatency speed-preset=ultrafast bitrate=5000"@
                    },
                    " ! h264parse config-interval=-1"@,
                    "video/x-h264,stream-format=avc,alignment=au"@,
                    ",profile=constrained-baseline"@,
                    "rtph264pay aggregate-mode=zero-latency config-interval=-1 pt=96"@,
                ),
                EncodeView::H265 => (
                    if windows {
                        " ! mfh265enc low-latency=true bitrate=5000"@
                    } else if platform == Platform::MacOs {
                        " ! vtenc_h265 allow-frame-reordering=false realtime=true quality=0.0 bitrate=5000"@
                    } else {
                        " ! x265enc tune=zerolatency speed-preset=ultrafast bitrate=5000"@
                    },
                    " ! h265parse config-interval=-1"@,
                    "video/x-h265,profile=main,stream-format=byte-stream,alignment=au"@,
                    ""@,
                    "rtph265pay aggregate-mode=zero-latency config-interval=-1 pt=96"@,
                ),
                EncodeView::Yuyv => (
                    ""@,
                    ""@,
                    "video/x-raw,format=I420"@,
                    ""@,
                    "rtpvrawpay pt=96"@,
                ),
                _ => (
                    " ! jpegenc quality=85 idct-method=1"@,
                    ""@,
                    "image/jpeg"@,
                    ""@,
                    "rtpjpegpay pt=96"@,
                ),
            };
            classic_text(encode, pattern, parts, shape, platform) == Some(
                "videotestsrc pattern="@ + pattern
                    + " is-live=true do-timestamp=true ! timeoverlay ! video/x-raw,format="@
                    + format + encoder + parser + " ! capsfilter name="@ + parts.filter + " caps="@
                    + media + ",width="@ + decimal(shape.width as nat) + ",height="@ + decimal(
                    shape.height as nat,
                ) + ",framerate="@ + decimal(shape.interval.denominator as nat) + "/"@ + decimal(
                    shape.interval.numerator as nat,
                ) + extra + " ! tee name="@ + parts.video_tee + " allow-not-linked=true ! "@
                    + payloader + " ! tee name="@ + parts.rtp_tee + " allow-not-linked=true"@,
            )
        }),
{
    let windows = platform == Platform::Windows;
    let format = if windows && (encode is H264 || encode is H265) {
        "NV12"@
    } else {
        "I420"@
    };
    let (encoder, parser, media, extra, payloader) = match encode {
        EncodeView::H264 => (
            h264_encoder(platform),
            " ! h264parse config-interval=-1"@,
            "video/x-h264,stream-format=avc,alignment=au"@,
            ",profile=constrained-baseline"@,
            "rtph264pay aggregate-mode=zero-latency config-interval=-1 pt=96"@,
        ),
        EncodeView::H265 => (
            h265_encoder(platform),
            " ! h265parse config-interval=-1"@,
            "video/x-h265,profile=main,stream-format=byte-stream,alignment=au"@,
            ""@,
            "rtph265pay aggregate-mode=zero-latency config-interval=-1 pt=96"@,
        ),
        EncodeView::Yuyv => (
            ""@,
            ""@,
            "video/x-raw,format=I420"@,
            ""@,
            "rtpvrawpay pt=96"@,
        ),
        _ => (
            " ! jpegenc quality=85 idct-method=1"@,
            ""@,
            "image/jpeg"@,
            ""@,
            "rtpjpegpay pt=96"@,
        ),
    };
    front_words_come_apart();
    back_words_come_apart();
    let begun = "videotestsrc pattern="@ + pattern;
    let live = " is-live=true do-timestamp=true ! timeoverlay ! video/x-raw,format="@;
    let raw = begun + live + format;
    reveal_strlit("");
    assert(raw + ""@ =~= raw);
    if encode is H264 || encode is H265 {
        regroup(raw + encoder, parser, " ! capsfilter name="@);
    } else if encode is Yuyv {
        regroup(begun, live + format, " ! capsfilter name="@);
        regroup(begun, live, format);
    } else {
        regroup(begun, live + format + encoder, " ! capsfilter name="@);
        regroup(begun, live + format, encoder);
        regroup(begun, live, format);
        assert(raw + encoder + ""@ =~= raw + encoder);
    }
    let filtered = raw + encoder + parser + " ! capsfilter name="@ + parts.filter;
    regroup(filtered, " caps="@ + media, ",width="@);
    regroup(filtered, " caps="@, media);
    let sized = filtered + " caps="@ + media + ",width="@ + decimal(shape.width as nat)
        + ",height="@ + decimal(shape.height as nat) + ",framerate="@ + decimal(
        shape.interval.denominator as nat,
    ) + "/"@ + decimal(shape.interval.numerator as nat);
    regroup(sized, extra, " ! tee name="@);
    let teed = sized + extra + " ! tee name="@ + parts.video_tee;
    regroup(teed, " allow-not-linked=true ! "@ + payloader, " ! tee name="@);
    regroup(teed, " allow-not-linked=true ! "@, payloader);
}

/// Only test pictures are shown, and what else is asked for is refused: streams that
/// are not video, sources that are not made of elements, and elements that show no
/// test picture. A picture that is not transcoded is described with its own pattern,
/// encoding, size and rate, where its encoding can be described.
pub proof fn only_test_pictures_are_shown(
    stream: TranscodedStream,
    id: PeerId,
    names: PipelineNames,
    platform: Platform,
    facts: EncodeFacts,
)
    ensures
        ({
            let r = fake_plan(stream, id, names, platform, facts);
            let video = stream.configuration is Video;
            let c = stream.configuration->Video_0;
            let gst = stream.video_source is Gst;
            let source = stream.video_source->Gst_0.source;
            let shown = video && gst && source is Fake;
            let classic = shown && c.source_configuration is Classic;
            let encode = c.source_encode@;
            let known = encode is H264 || encode is H265 || encode is Yuyv || encode is Mjpg;
            let shape = Shape { width: c.width, height: c.height, interval: c.frame_interval };
            &&& r == Err::<FakePlanView, FakeError>(FakeError::Configuration) <==> !video
            &&& r == Err::<FakePlanView, FakeError>(FakeError::SourceType) <==> video && !gst
            &&& r == Err::<FakePlanView, FakeError>(FakeError::GstSource) <==> video && gst && !(
            source is Fake)
            &&& r == Err::<FakePlanView, FakeError>(FakeError::Encode) <==> classic && !known
            &&& r is Ok && r->Ok_0 is Classic <==> classic && known
            &&& classic && known ==> Some(r->Ok_0->description) == classic_text(
                encode,
                source->Fake_0@,
                parts_of(names, id),
                shape,
                platform,
            )
        }),
{
}

/// A test picture that is transcoded comes from a test source of its own pattern
/// where raw video is transcoded, and is put in front of the pipeline's first filter
/// where compressed video is, which is told the frame interval where the user picked
/// the elements. Picked elements have to lead to an encoding that can be sent or is
/// raw.
pub proof fn test_pictures_are_transcoded_from_their_source(
    configuration: TranscodingCaptureConfiguration,
    pattern: Seq<char>,
    facts: EncodeFacts,
)
    ensures
        ({
            let r = transcoding_plan(configuration, pattern, facts);
            let picked = configuration.source_configuration is ManualTranscoding;
            &&& r is Err <==> picked && !facts.sendable_sink && !facts.raw_sink
            &&& r is Err ==> r->Err_0 == FakeError::SinkEncode
            &&& r matches Ok(plan) ==> {
                &&& plan is Transcoding
                &&& plan->manual == picked
                &&& plan->source_factory is Some <==> facts.raw_source
                &&& facts.raw_source ==> plan->source_factory == Some("videotestsrc"@)
                &&& plan->frame_interval == (if picked && !facts.raw_source {
                    Some(configuration.frame_interval)
                } else {
                    None
                })
                &&& plan->source is Raw <==> facts.raw_source
                &&& facts.raw_source ==> {
                    let settings = plan->source->settings;
                    let converter = plan->source->converter;
                    &&& settings.factory == "videotestsrc"@ && settings.name == Some("source"@)
                    &&& settings.properties.len() == 0
                    &&& settings.optional == seq![
                        ("pattern"@, PropertyValueView::Text(pattern)),
                        ("is-live"@, PropertyValueView::Bool(true)),
                        ("do-timestamp"@, PropertyValueView::Bool(true)),
                    ]
                    &&& converter.factory == "videoconvert"@ && converter.name == Some(
                        "fake-source-videoconvert"@,
                    )
                }
            }
        }),
{
    let settings = test_source_view(pattern);
    assert(settings.optional =~= seq![
        ("pattern"@, PropertyValueView::Text(pattern)),
        ("is-live"@, PropertyValueView::Bool(true)),
        ("do-timestamp"@, PropertyValueView::Bool(true)),
    ]);
}

/// A test picture is compressed to the kind of data of its encoding, by an encoder of
/// that encoding that the platform has, and parsed where the encoding needs it.
pub proof fn test_pictures_are_compressed_in_kind(encode: EncodeView, platform: Platform)
    ensures
        ({
            let mime = mime_of(encode);
            let encoder = fake_encoder_of(encode, platform);
            let parser = parser_view(encode);
            &&& encode is H264 ==> mime == Some("video/x-h264"@) && parser is Some
                && parser->0.factory == "h264parse"@ && encoder == Some(
                if platform == Platform::Windows {
                    "mfh264enc"@
                } else {
                    "x264enc"@
                },
            )
            &&& encode is H265 ==> mime == Some("video/x-h265"@) && parser is Some
                && parser->0.factory == "h265parse"@
            &&& encode is H265 && platform == Platform::Windows ==> encoder == Some("mfh265enc"@)
            &&& encode is H265 && platform == Platform::MacOs ==> encoder == Some("vtenc_h265"@)
            &&& encode is H265 && platform == Platform::Linux ==> encoder == Some("x265enc"@)
            &&& encode is Mjpg ==> mime == Some("image/jpeg"@) && parser is None && encoder == Some(
                "jpegenc"@,
            )
            &&& !(encode is H264 || encode is H265 || encode is Mjpg) ==> mime is None
                && encoder is None && parser is None
            &&& parser is Some ==> parser->0.optional == seq![
                ("config-interval"@, PropertyValueView::Int(-1i32)),
            ] && parser->0.properties.len() == 0
        }),
        ({
            let view = fake_encoder_view(fake_encoder_of(encode, platform)->0);
            &&& view.factory == fake_encoder_of(encode, platform)->0
            &&& view.name == Some("fake-source-encoder"@)
            &&& view.optional == seq![
                ("tune"@, PropertyValueView::Text("zerolatency"@)),
                ("speed-preset"@, PropertyValueView::Text("ultrafast"@)),
                ("low-latency"@, PropertyValueView::Bool(true)),
                ("bitrate"@, PropertyValueView::Text("5000"@)),
            ]
        }),
{
    let view = fake_encoder_view(fake_encoder_of(encode, platform)->0);
    assert(view.optional =~= seq![
        ("tune"@, PropertyValueView::Text("zerolatency"@)),
        ("speed-preset"@, PropertyValueView::Text("ultrafast"@)),
        ("low-latency"@, PropertyValueView::Bool(true)),
        ("bitrate"@, PropertyValueView::Text("5000"@)),
    ]);
    if parser_view(encode) is Some {
        assert(parser_view(encode)->0.optional =~= seq![
            ("config-interval"@, PropertyValueView::Int(-1i32)),
        ]);
    }
}

/// A compressed test source is put in front of the first filter for its kind of data
/// that nothing is linked to: filters for other data, elements that are no filters,
/// and filters that are fed already are passed by.
pub proof fn free_filters_are_found(
    elements: Seq<FoundElement>,
    mime: Seq<char>,
    i: int,
    j: int,
)
    requires
        0 <= j < elements.len(),
    ensures
        ({
            let fits = elements[j].factory is Some && elements[j].factory->0@ == "capsfilter"@
                && elements[j].mime is Some && elements[j].mime->0@ == mime
                && elements[j].sink_linked != Some(true);
            &&& first_stop(elements, mime, i) && j == i ==> fits
            &&& first_stop(elements, mime, i) && fits ==> i <= j
            &&& never_stops(elements, mime) ==> !fits
        }),
        first_stop(elements, mime, i) ==> !never_stops(elements, mime),
        (0 <= i < elements.len() && elements[i].factory is Some && elements[i].factory->0@
            == "capsfilter"@ && elements[i].mime is Some && elements[i].mime->0@ == mime
            && elements[i].sink_linked != Some(true) && forall|k: int|
            0 <= k < i ==> (#[trigger] elements[k]).factory is None || elements[k].factory->0@
                != "capsfilter"@ || elements[k].mime is None || elements[k].mime->0@ != mime
                || elements[k].sink_linked == Some(true)) ==> first_stop(elements, mime, i),
{
    assert(elements[j].stops(mime) == (elements[j].filters(mime) && elements[j].sink_linked != Some(
        true,
    )));
    if first_stop(elements, mime, i) {
        assert(elements[i].stops(mime));
    }
}

} // verus!
