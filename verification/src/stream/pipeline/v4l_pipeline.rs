//! Pipelines that capture from a local video device.
use vstd::prelude::*;

use crate::stream::debug_env::{
    b1_queue_limits, b1_queue_sizing, flag_set, queue_after_payloader, queue_at_v4l2src,
    queue_before_payloader, Environment,
};
use crate::stream::peer_id::{id_text, PeerId};
use crate::stream::pipeline::parts::{
    part_name, parts_of, pipeline_name, PartsView, PipelineNames, PipelineParts, Shape,
};
use crate::stream::types::{
    CaptureConfiguration, CaptureView, EncodeView, InformationView, SourceView,
    VideoAndStreamInformation, VideoEncodeType, VideoSourceType,
};
use crate::text::{append_u64, decimal};

verus! {

/// Why no pipeline is made.
#[derive(Clone, Copy, Debug, PartialEq, Eq, Structural)]
pub enum V4lError {
    /// Only video is supported.
    Configuration,
    /// Only local devices are supported.
    SourceType,
    /// The encoding is not supported.
    Encode,
    /// The device has none of the profiles that are known.
    Profile,
}

/// The extra queues of a pipeline, as parts of its description. Each is empty
/// where it is not asked for.
pub struct Queues {
    pub at_source: String,
    pub before_payloader: String,
    pub after_payloader: String,
}

/// What [`Queues`] stand for.
#[verifier::ext_equal]
pub struct QueuesView {
    pub at_source: Seq<char>,
    pub before_payloader: Seq<char>,
    pub after_payloader: Seq<char>,
}

impl View for Queues {
    type V = QueuesView;

    open spec fn view(&self) -> QueuesView {
        QueuesView {
            at_source: self.at_source@,
            before_payloader: self.before_payloader@,
            after_payloader: self.after_payloader@,
        }
    }
}

/// An extra queue as part of a description, with what links it to the next
/// element; nothing where it is not asked for.
pub open spec fn queue_fragment(enabled: bool, name: Seq<char>, env: Environment) -> Seq<char> {
    if enabled {
        "queue name="@
        + name
        + " leaky=downstream silent=true flush-on-eos=true max-size-buffers="@
        + decimal(b1_queue_limits(env).0 as nat)
        + " max-size-bytes=0 max-size-time="@
        + decimal(b1_queue_limits(env).1 as nat)
        + " ! "@
    } else {
        Seq::empty()
    }
}

fn b1_queue_fragment(enabled: bool, name: &str, env: &Environment) -> (r: String)
    ensures
        r@ == queue_fragment(enabled, name@, *env),
{
    if !enabled {
        return String::new();
    }
    let (max_buffers, max_time_ns, _) = b1_queue_sizing(env);
    let mut s = "queue name=".to_owned();
    s.append(name);
    s.append(" leaky=downstream silent=true flush-on-eos=true max-size-buffers=");
    append_u64(&mut s, max_buffers as u64);
    s.append(" max-size-bytes=0 max-size-time=");
    append_u64(&mut s, max_time_ns as u64);
    s.append(" ! ");
    s
}

/// The extra queues that an environment asks for.
pub open spec fn queues_of(env: Environment) -> QueuesView {
    QueuesView {
        at_source: queue_fragment(
            flag_set(env, "MCM_QUEUE_AT_V4L2SRC"@),
            "b1_q_at_v4l2src"@,
            env,
        ),
        before_payloader: queue_fragment(
            flag_set(env, "MCM_QUEUE_BEFORE_PAYLOADER"@),
            "b1_q_before_pay"@,
            env,
        ),
        after_payloader: queue_fragment(
            flag_set(env, "MCM_QUEUE_AFTER_PAYLOADER"@),
            "b1_q_after_pay"@,
            env,
        ),
    }
}

fn queues(env: &Environment) -> (r: Queues)
    ensures
        r@ == queues_of(*env),
{
    Queues {
        at_source: b1_queue_fragment(queue_at_v4l2src(env), "b1_q_at_v4l2src", env),
        before_payloader: b1_queue_fragment(queue_before_payloader(env), "b1_q_before_pay", env),
        after_payloader: b1_queue_fragment(queue_after_payloader(env), "b1_q_after_pay", env),
    }
}

/// Video of a device in H264, as a pipeline description.
pub open spec fn h264_text(
    device: Seq<char>,
    parts: PartsView,
    shape: Shape,
    q: QueuesView,
) -> Seq<char> {
    "v4l2src device="@
        + device
        + " do-timestamp=true ! "@
        + q.at_source
        + "h264parse config-interval=-1 ! capsfilter name="@
        + parts.filter
        + " caps=video/x-h264,stream-format=avc,alignment=au,width="@
        + decimal(shape.width as nat)
        + ",height="@
        + decimal(shape.height as nat)
        + ",framerate="@
        + decimal(shape.interval.denominator as nat)
        + "/"@
        + decimal(shape.interval.numerator as nat)
        + " ! tee name="@
        + parts.video_tee
        + " allow-not-linked=true ! "@
        + q.before_payloader
        + "rtph264pay aggregate-mode=zero-latency config-interval=-1 pt=96 ! "@
        + q.after_payloader
        + "tee name="@
        + parts.rtp_tee
        + " allow-not-linked=true"@
}

fn h264_description(device: &str, parts: &PipelineParts, shape: Shape, q: &Queues) -> (r: String)
    ensures
        r@ == h264_text(device@, parts@, shape, q@),
{
    let mut s = "v4l2src device=".to_owned();
    s.append(device);
    s.append(" do-timestamp=true ! ");
    s.append(q.at_source.as_str());
    s.append("h264parse config-interval=-1 ! capsfilter name=");
    s.append(parts.filter.as_str());
    s.append(" caps=video/x-h264,stream-format=avc,alignment=au,width=");
    append_u64(&mut s, shape.width as u64);
    s.append(",height=");
    append_u64(&mut s, shape.height as u64);
    s.append(",framerate=");
    append_u64(&mut s, shape.interval.denominator as u64);
    s.append("/");
    append_u64(&mut s, shape.interval.numerator as u64);
    s.append(" ! tee name=");
    s.append(parts.video_tee.as_str());
    s.append(" allow-not-linked=true ! ");
    s.append(q.before_payloader.as_str());
    s.append("rtph264pay aggregate-mode=zero-latency config-interval=-1 pt=96 ! ");
    s.append(q.after_payloader.as_str());
    s.append("tee name=");
    s.append(parts.rtp_tee.as_str());
    s.append(" allow-not-linked=true");
    s
}

/// Video of a device in H265, as a pipeline description.
pub open spec fn h265_text(
    device: Seq<char>,
    parts: PartsView,
    shape: Shape,
    q: QueuesView,
) -> Seq<char> {
    "v4l2src device="@
        + device
        + " do-timestamp=true ! "@
        + q.at_source
        + "h265parse ! capsfilter name="@
        + parts.filter
        + " caps=video/x-h265,stream-format=byte-stream,alignment=au,width="@
        + decimal(shape.width as nat)
        + ",height="@
        + decimal(shape.height as nat)
        + ",framerate="@
        + decimal(shape.interval.denominator as nat)
        + "/"@
        + decimal(shape.interval.numerator as nat)
        + " ! tee name="@
        + parts.video_tee
        + " allow-not-linked=true ! "@
        + q.before_payloader
        + "rtph265pay aggregate-mode=zero-latency config-interval=-1 pt=96 ! "@
        + q.after_payloader
        + "tee name="@
        + parts.rtp_tee
        + " allow-not-linked=true"@
}

fn h265_description(device: &str, parts: &PipelineParts, shape: Shape, q: &Queues) -> (r: String)
    ensures
        r@ == h265_text(device@, parts@, shape, q@),
{
    let mut s = "v4l2src device=".to_owned();
    s.append(device);
    s.append(" do-timestamp=true ! ");
    s.append(q.at_source.as_str());
    s.append("h265parse ! capsfilter name=");
    s.append(parts.filter.as_str());
    s.append(" caps=video/x-h265,stream-format=byte-stream,alignment=au,width=");
    append_u64(&mut s, shape.width as u64);
    s.append(",height=");
    append_u64(&mut s, shape.height as u64);
    s.append(",framerate=");
    append_u64(&mut s, shape.interval.denominator as u64);
    s.append("/");
    append_u64(&mut s, shape.interval.numerator as u64);
    s.append(" ! tee name=");
    s.append(parts.video_tee.as_str());
    s.append(" allow-not-linked=true ! ");
    s.append(q.before_payloader.as_str());
    s.append("rtph265pay aggregate-mode=zero-latency config-interval=-1 pt=96 ! ");
    s.append(q.after_payloader.as_str());
    s.append("tee name=");
    s.append(parts.rtp_tee.as_str());
    s.append(" allow-not-linked=true");
    s
}

/// Video of a device in raw, as a pipeline description.
pub open spec fn yuyv_text(
    device: Seq<char>,
    parts: PartsView,
    shape: Shape,
    q: QueuesView,
) -> Seq<char> {
    "v4l2src device="@
        + device
        + " do-timestamp=true ! "@
        + q.at_source
        + "videoconvert ! capsfilter name="@
        + parts.filter
        + " caps=video/x-raw,format=I420,width="@
        + decimal(shape.width as nat)
        + ",height="@
        + decimal(shape.height as nat)
        + ",framerate="@
        + decimal(shape.interval.denominator as nat)
        + "/"@
        + decimal(shape.interval.numerator as nat)
        + " ! tee name="@
        + parts.video_tee
        + " allow-not-linked=true ! "@
        + q.before_payloader
        + "rtpvrawpay pt=96 ! "@
        + q.after_payloader
        + "tee name="@
        + parts.rtp_tee
        + " allow-not-linked=true"@
}

fn yuyv_description(device: &str, parts: &PipelineParts, shape: Shape, q: &Queues) -> (r: String)
    ensures
        r@ == yuyv_text(device@, parts@, shape, q@),
{
    let mut s = "v4l2src device=".to_owned();
    s.append(device);
    s.append(" do-timestamp=true ! ");
    s.append(q.at_source.as_str());
    s.append("videoconvert ! capsfilter name=");
    s.append(parts.filter.as_str());
    s.append(" caps=video/x-raw,format=I420,width=");
    append_u64(&mut s, shape.width as u64);
    s.append(",height=");
    append_u64(&mut s, shape.height as u64);
    s.append(",framerate=");
    append_u64(&mut s, shape.interval.denominator as u64);
    s.append("/");
    append_u64(&mut s, shape.interval.numerator as u64);
    s.append(" ! tee name=");
    s.append(parts.video_tee.as_str());
    s.append(" allow-not-linked=true ! ");
    s.append(q.before_payloader.as_str());
    s.append("rtpvrawpay pt=96 ! ");
    s.append(q.after_payloader.as_str());
    s.append("tee name=");
    s.append(parts.rtp_tee.as_str());
    s.append(" allow-not-linked=true");
    s
}

/// Video of a device in JPEG, as a pipeline description.
pub open spec fn mjpg_text(
    device: Seq<char>,
    parts: PartsView,
    shape: Shape,
    q: QueuesView,
) -> Seq<char> {
    "v4l2src device="@
        + device
        + " do-timestamp=true ! "@
        + q.at_source
        + "capsfilter name="@
        + parts.filter
        + " caps=image/jpeg,width="@
        + decimal(shape.width as nat)
        + ",height="@
        + decimal(shape.height as nat)
        + ",framerate="@
        + decimal(shape.interval.denominator as nat)
        + "/"@
        + decimal(shape.interval.numerator as nat)
        + " ! tee name="@
        + parts.video_tee
        + " allow-not-linked=true ! "@
        + q.before_payloader
        + "rtpjpegpay pt=96 ! "@
        + q.after_payloader
        + "tee name="@
        + parts.rtp_tee
        + " allow-not-linked=true"@
}

fn mjpg_description(device: &str, parts: &PipelineParts, shape: Shape, q: &Queues) -> (r: String)
    ensures
        r@ == mjpg_text(device@, parts@, shape, q@),
{
    let mut s = "v4l2src device=".to_owned();
    s.append(device);
    s.append(" do-timestamp=true ! ");
    s.append(q.at_source.as_str());
    s.append("capsfilter name=");
    s.append(parts.filter.as_str());
    s.append(" caps=image/jpeg,width=");
    append_u64(&mut s, shape.width as u64);
    s.append(",height=");
    append_u64(&mut s, shape.height as u64);
    s.append(",framerate=");
    append_u64(&mut s, shape.interval.denominator as u64);
    s.append("/");
    append_u64(&mut s, shape.interval.numerator as u64);
    s.append(" ! tee name=");
    s.append(parts.video_tee.as_str());
    s.append(" allow-not-linked=true ! ");
    s.append(q.before_payloader.as_str());
    s.append("rtpjpegpay pt=96 ! ");
    s.append(q.after_payloader.as_str());
    s.append("tee name=");
    s.append(parts.rtp_tee.as_str());
    s.append(" allow-not-linked=true");
    s
}

/// The description of a stream from a local device, or why there is none.
pub open spec fn v4l_text(
    information: InformationView,
    id: PeerId,
    names: PipelineNames,
    env: Environment,
) -> Result<Seq<char>, V4lError> {
    match information.configuration {
        CaptureView::Redirect => Err(V4lError::Configuration),
        CaptureView::Video { encode, height, width, frame_interval } => match information.source {
            SourceView::Local(_, device) => {
                let shape = Shape { width, height, interval: frame_interval };
                let parts = parts_of(names, id);
                let q = queues_of(env);
                match encode {
                    EncodeView::H264 => Ok(h264_text(device, parts, shape, q)),
                    EncodeView::H265 => Ok(h265_text(device, parts, shape, q)),
                    EncodeView::Yuyv => Ok(yuyv_text(device, parts, shape, q)),
                    EncodeView::Mjpg => Ok(mjpg_text(device, parts, shape, q)),
                    _ => Err(V4lError::Encode),
                }
            },
            _ => Err(V4lError::SourceType),
        },
    }
}

/// A pipeline that captures from a local device.
pub struct V4lPipeline {
    pub name: String,
    pub description: String,
}

impl V4lPipeline {
    /// Plans the pipeline of a stream from a local device.
    pub fn try_new(
        id: PeerId,
        information: &VideoAndStreamInformation,
        names: &PipelineNames,
        env: &Environment,
    ) -> (r: Result<V4lPipeline, V4lError>)
        ensures
            match r {
                Ok(pipeline) => v4l_text(information@, id, *names, *env) == Ok::<
                    Seq<char>,
                    V4lError,
                >(pipeline.description@) && pipeline.name@ == part_name("pipeline-v4l2"@, id),
                Err(error) => v4l_text(information@, id, *names, *env) == Err::<
                    Seq<char>,
                    V4lError,
                >(error),
            },
    {
        let configuration = match &information.stream_information.configuration {
            CaptureConfiguration::VIDEO(configuration) => configuration,
            CaptureConfiguration::REDIRECT(_) => {
                return Err(V4lError::Configuration);
            },
        };
        let device = match &information.video_source {
            VideoSourceType::Local(source) => source.device_path.as_str(),
            _ => {
                return Err(V4lError::SourceType);
            },
        };
        let shape = Shape {
            width: configuration.width,
            height: configuration.height,
            interval: configuration.frame_interval,
        };
        let parts = names.parts(id);
        let q = queues(env);
        let description = match &configuration.encode {
            VideoEncodeType::H264 => h264_description(device, &parts, shape, &q),
            VideoEncodeType::H265 => h265_description(device, &parts, shape, &q),
            VideoEncodeType::Yuyv => yuyv_description(device, &parts, shape, &q),
            VideoEncodeType::Mjpg => mjpg_description(device, &parts, shape, &q),
            _ => {
                return Err(V4lError::Encode);
            },
        };
        Ok(V4lPipeline { name: pipeline_name("pipeline-v4l2", id), description })
    }
}

proof fn regroup(x: Seq<char>, a: Seq<char>, b: Seq<char>)
    ensures
        x + (a + b) == x + a + b,
{
    assert(x + (a + b) =~= x + a + b);
}

/// The words that descriptions are written in come apart where their parts meet.
proof fn words_come_apart()
    ensures
        "h264parse config-interval=-1 ! capsfilter name="@ == "h264parse config-interval=-1 ! "@
            + "capsfilter name="@,
        "h265parse ! capsfilter name="@ == "h265parse ! "@ + "capsfilter name="@,
        "videoconvert ! capsfilter name="@ == "videoconvert ! "@ + "capsfilter name="@,
        "capsfilter name="@ == ""@ + "capsfilter name="@,
        " caps=video/x-h264,stream-format=avc,alignment=au,width="@ == " caps="@
            + "video/x-h264,stream-format=avc,alignment=au"@ + ",width="@,
        " caps=video/x-h265,stream-format=byte-stream,alignment=au,width="@ == " caps="@
            + "video/x-h265,stream-format=byte-stream,alignment=au"@ + ",width="@,
        " caps=video/x-raw,format=I420,width="@ == " caps="@ + "video/x-raw,format=I420"@
            + ",width="@,
        " caps=image/jpeg,width="@ == " caps="@ + "image/jpeg"@ + ",width="@,
        "rtph264pay aggregate-mode=zero-latency config-interval=-1 pt=96 ! "@
            == "rtph264pay aggregate-mode=zero-latency config-interval=-1 pt=96"@ + " ! "@,
        "rtph265pay aggregate-mode=zero-latency config-interval=-1 pt=96 ! "@
            == "rtph265pay aggregate-mode=zero-latency config-interval=-1 pt=96"@ + " ! "@,
        "rtpvrawpay pt=96 ! "@ == "rtpvrawpay pt=96"@ + " ! "@,
        "rtpjpegpay pt=96 ! "@ == "rtpjpegpay pt=96"@ + " ! "@,
{
    reveal_strlit("");
    reveal_strlit("h264parse config-interval=-1 ! ");
    reveal_strlit("h265parse ! ");
    reveal_strlit("videoconvert ! ");
    reveal_strlit("capsfilter name=");
    reveal_strlit("h264parse config-interval=-1 ! capsfilter name=");
    reveal_strlit("h265parse ! capsfilter name=");
    reveal_strlit("videoconvert ! capsfilter name=");
    reveal_strlit(" caps=");
    reveal_strlit(",width=");
    reveal_strlit("video/x-h264,stream-format=avc,alignment=au");
    reveal_strlit(" caps=video/x-h264,stream-format=avc,alignment=au,width=");
    reveal_strlit("video/x-h265,stream-format=byte-stream,alignment=au");
    reveal_strlit(" caps=video/x-h265,stream-format=byte-stream,alignment=au,width=");
    reveal_strlit("video/x-raw,format=I420");
    reveal_strlit(" caps=video/x-raw,format=I420,width=");
    reveal_strlit("image/jpeg");
    reveal_strlit(" caps=image/jpeg,width=");
    reveal_strlit(" ! ");
    reveal_strlit("rtph264pay aggregate-mode=zero-latency config-interval=-1 pt=96");
    reveal_strlit("rtph264pay aggregate-mode=zero-latency config-interval=-1 pt=96 ! ");
    reveal_strlit("rtph265pay aggregate-mode=zero-latency config-interval=-1 pt=96");
    reveal_strlit("rtph265pay aggregate-mode=zero-latency config-interval=-1 pt=96 ! ");
    reveal_strlit("rtpvrawpay pt=96");
    reveal_strlit("rtpvrawpay pt=96 ! ");
    reveal_strlit("rtpjpegpay pt=96");
    reveal_strlit("rtpjpegpay pt=96 ! ");
}

/// A local camera is asked for what was configured, whatever its encoding: its own
/// device is read, the filter asks for the configured width, height and rate, in the
/// media type of the encoding, and the video goes through the video tee and the
/// payloader of the encoding to the RTP tee. Extra queues stand behind the source,
/// before and after the payloader, each where its switch is on.
pub proof fn local_cameras_are_asked_for_what_was_configured(
    information: InformationView,
    id: PeerId,
    names: PipelineNames,
    env: Environment,
)
    requires
        information.configuration is Video,
        information.source is Local,
        ({
            let encode = information.configuration->Video_encode;
            encode is H264 || encode is H265 || encode is Yuyv || encode is Mjpg
        }),
    ensures
        ({
            let video = information.configuration;
            let (parser, media, payloader) = match video->Video_encode {
                EncodeView::H264 => (
                    "h264parse config-interval=-1 ! "@,
                    "video/x-h264,stream-format=avc,alignment=au"@,
                    "rtph264pay aggregate-mode=zero-latency config-interval=-1 pt=96"@,
                ),
                EncodeView::H265 => (
                    "h265parse ! "@,
                    "video/x-h265,stream-format=byte-stream,alignment=au"@,
                    "rtph265pay aggregate-mode=zero-latency config-interval=-1 pt=96"@,
                ),
                EncodeView::Yuyv => (
                    "videoconvert ! "@,
                    "video/x-raw,format=I420"@,
                    "rtpvrawpay pt=96"@,
                ),
                _ => (""@, "image/jpeg"@, "rtpjpegpay pt=96"@),
            };
            let filter = names.filter@ + "-"@ + id_text(id.value);
            let video_tee = names.video_tee@ + "-"@ + id_text(id.value);
            let rtp_tee = names.rtp_tee@ + "-"@ + id_text(id.value);
            let first_queue = queue_fragment(
                flag_set(env, "MCM_QUEUE_AT_V4L2SRC"@),
                "b1_q_at_v4l2src"@,
                env,
            );
            let second_queue = queue_fragment(
                flag_set(env, "MCM_QUEUE_BEFORE_PAYLOADER"@),
                "b1_q_before_pay"@,
                env,
            );
            let third_queue = queue_fragment(
                flag_set(env, "MCM_QUEUE_AFTER_PAYLOADER"@),
                "b1_q_after_pay"@,
                env,
            );
            v4l_text(information, id, names, env) == Ok::<Seq<char>, V4lError>(
                "v4l2src device="@ + information.source->Local_1 + " do-timestamp=true ! "@
                    + first_queue + parser + "capsfilter name="@ + filter + " caps="@ + media
                    + ",width="@ + decimal(video->width as nat) + ",height="@ + decimal(
                    video->height as nat,
                ) + ",framerate="@ + decimal(video->frame_interval.denominator as nat) + "/"@
                    + decimal(video->frame_interval.numerator as nat) + " ! tee name="@ + video_tee
                    + " allow-not-linked=true ! "@ + second_queue + payloader + " ! "@
                    + third_queue + "tee name="@ + rtp_tee + " allow-not-linked=true"@,
            )
        }),
{
    let video = information.configuration;
    let encode = video->Video_encode;
    words_come_apart();
    let (parser, media, payloader) = match encode {
        EncodeView::H264 => (
            "h264parse config-interval=-1 ! "@,
            "video/x-h264,stream-format=avc,alignment=au"@,
            "rtph264pay aggregate-mode=zero-latency config-interval=-1 pt=96"@,
        ),
        EncodeView::H265 => (
            "h265parse ! "@,
            "video/x-h265,stream-format=byte-stream,alignment=au"@,
            "rtph265pay aggregate-mode=zero-latency config-interval=-1 pt=96"@,
        ),
        EncodeView::Yuyv => ("videoconvert ! "@, "video/x-raw,format=I420"@, "rtpvrawpay pt=96"@),
        _ => (""@, "image/jpeg"@, "rtpjpegpay pt=96"@),
    };
    let parts = parts_of(names, id);
    let q = queues_of(env);
    let source = "v4l2src device="@ + information.source->Local_1 + " do-timestamp=true ! "@
        + q.at_source;
    regroup(source, parser, "capsfilter name="@);
    let filtered = source + parser + "capsfilter name="@ + parts.filter;
    regroup(filtered, " caps="@ + media, ",width="@);
    regroup(filtered, " caps="@, media);
    let sized = filtered + " caps="@ + media + ",width="@ + decimal(video->width as nat)
        + ",height="@ + decimal(video->height as nat) + ",framerate="@ + decimal(
        video->frame_interval.denominator as nat,
    ) + "/"@ + decimal(video->frame_interval.numerator as nat);
    let teed = sized + " ! tee name="@ + parts.video_tee + " allow-not-linked=true ! "@
        + q.before_payloader;
    regroup(teed, payloader, " ! "@);
}

/// Only video from local cameras in H264, H265, raw or JPEG is captured; what else is
/// asked for is refused for its configuration first, then for its source, then for
/// its encoding.
pub proof fn only_local_video_is_captured(
    information: InformationView,
    id: PeerId,
    names: PipelineNames,
    env: Environment,
)
    ensures
        ({
            let r = v4l_text(information, id, names, env);
            let video = information.configuration is Video;
            let local = information.source is Local;
            let encode = information.configuration->Video_encode;
            let known = encode is H264 || encode is H265 || encode is Yuyv || encode is Mjpg;
            &&& r is Ok <==> video && local && known
            &&& r == Err::<Seq<char>, V4lError>(V4lError::Configuration) <==> !video
            &&& r == Err::<Seq<char>, V4lError>(V4lError::SourceType) <==> video && !local
            &&& r == Err::<Seq<char>, V4lError>(V4lError::Encode) <==> video && local && !known
        }),
{
}

/// An extra queue that is not asked for leaves no trace in a description; one that is
/// goes by its name, drops the oldest, and holds two seconds at 30 frames per second,
/// or four times that where the large sizing is switched on.
pub proof fn extra_queues_are_sized_by_the_switch(enabled: bool, name: Seq<char>, env: Environment)
    ensures
        ({
            let large = flag_set(env, "MCM_QUEUE_SIZING_LARGE"@);
            let buffers: nat = if large {
                240
            } else {
                60
            };
            let time: nat = if large {
                8_000_000_000
            } else {
                2_000_000_000
            };
            let fragment = queue_fragment(enabled, name, env);
            &&& !enabled ==> fragment.len() == 0
            &&& enabled ==> fragment == "queue name="@ + name
                + " leaky=downstream silent=true flush-on-eos=true max-size-buffers="@ + decimal(
                buffers,
            ) + " max-size-bytes=0 max-size-time="@ + decimal(time) + " ! "@
        }),
{
}

} // verus!
