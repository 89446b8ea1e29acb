//! Pipelines that capture H264 from a local device in a profile that is fixed
//! beforehand.
//!
//! Without a fixed profile the video would be negotiated anew when a second
//! sink connects, and sinks that are playing would freeze for a while.
use vstd::prelude::*;

use crate::stream::pipeline::parts::Shape;
use crate::stream::pipeline::v4l_pipeline::V4lError;
use crate::stream::types::{
    CaptureConfiguration, CaptureView, SourceView, VideoAndStreamInformation, VideoEncodeType,
    VideoSourceType,
};
use crate::text::{append_u64, decimal};

verus! {

/// The profiles that are tried, the most widely understood first.
pub open spec fn profile_text(i: int) -> Seq<char> {
    if i == 0 {
        "constrained-baseline"@
    } else if i == 1 {
        "baseline"@
    } else if i == 2 {
        "main"@
    } else {
        "high"@
    }
}

/// How many profiles are tried.
pub const PROFILES: usize = 4;

fn profile_name(i: usize) -> (r: &'static str)
    ensures
        r@ == profile_text(i as int),
{
    if i == 0 {
        "constrained-baseline"
    } else if i == 1 {
        "baseline"
    } else if i == 2 {
        "main"
    } else {
        "high"
    }
}

/// The pipeline that shows whether a device has a profile: it ends well after
/// one buffer where it does.
pub open spec fn probe_text(device: Seq<char>, profile: Seq<char>, shape: Shape) -> Seq<char> {
    "v4l2src device="@
        + device
        + " do-timestamp=false num-buffers=1 ! h264parse ! video/x-h264,stream-format=avc,alignment=au,profile="@
        + profile
        + ",width="@
        + decimal(shape.width as nat)
        + ",height="@
        + decimal(shape.height as nat)
        + ",framerate="@
        + decimal(shape.interval.denominator as nat)
        + "/"@
        + decimal(shape.interval.numerator as nat)
        + " ! fakesink"@
}

pub fn probe_description(device: &str, profile: &str, shape: Shape) -> (r: String)
    ensures
        r@ == probe_text(device@, profile@, shape),
{
    let mut s = "v4l2src device=".to_owned();
    s.append(device);
    s.append(" do-timestamp=false num-buffers=1 ! h264parse ! video/x-h264,stream-format=avc,alignment=au,profile=");
    s.append(profile);
    s.append(",width=");
    append_u64(&mut s, shape.width as u64);
    s.append(",height=");
    append_u64(&mut s, shape.height as u64);
    s.append(",framerate=");
    append_u64(&mut s, shape.interval.denominator as u64);
    s.append("/");
    append_u64(&mut s, shape.interval.numerator as u64);
    s.append(" ! fakesink");
    s
}

/// H264 video of a device in one profile, as a pipeline description.
pub open spec fn profiled_text(device: Seq<char>, profile: Seq<char>, shape: Shape, filter: Seq<char>, tee: Seq<char>) -> Seq<char> {
    "v4l2src device="@
        + device
        + " do-timestamp=false ! h264parse ! capsfilter name="@
        + filter
        + " caps=video/x-h264,stream-format=avc,alignment=au,profile="@
        + profile
        + ",width="@
        + decimal(shape.width as nat)
        + ",height="@
        + decimal(shape.height as nat)
        + ",framerate="@
        + decimal(shape.interval.denominator as nat)
        + "/"@
        + decimal(shape.interval.numerator as nat)
        + " ! rtph264pay aggregate-mode=zero-latency config-interval=10 pt=96 timestamp-offset=0 ! tee name="@
        + tee
        + " allow-not-linked=true"@
}

pub fn profiled_description(device: &str, profile: &str, shape: Shape, filter: &str, tee: &str) -> (r: String)
    ensures
        r@ == profiled_text(device@, profile@, shape, filter@, tee@),
{
    let mut s = "v4l2src device=".to_owned();
    s.append(device);
    s.append(" do-timestamp=false ! h264parse ! capsfilter name=");
    s.append(filter);
    s.append(" caps=video/x-h264,stream-format=avc,alignment=au,profile=");
    s.append(profile);
    s.append(",width=");
    append_u64(&mut s, shape.width as u64);
    s.append(",height=");
    append_u64(&mut s, shape.height as u64);
    s.append(",framerate=");
    append_u64(&mut s, shape.interval.denominator as u64);
    s.append("/");
    append_u64(&mut s, shape.interval.numerator as u64);
    s.append(" ! rtph264pay aggregate-mode=zero-latency config-interval=10 pt=96 timestamp-offset=0 ! tee name=");
    s.append(tee);
    s.append(" allow-not-linked=true");
    s
}

/// What a probing pipeline reports.
#[derive(Clone, Copy, Debug, PartialEq, Eq, Structural)]
pub enum ProbeMessage {
    Eos,
    Error,
    Other,
}

/// What a message says of the profile that is probed: the end of the stream
/// that the device has it, an error that it has not, anything else nothing.
pub fn judge_probe(message: ProbeMessage) -> (r: Option<bool>)
    ensures
        r == (match message {
            ProbeMessage::Eos => Some(true),
            ProbeMessage::Error => Some(false),
            ProbeMessage::Other => None,
        }),
{
    match message {
        ProbeMessage::Eos => Some(true),
        ProbeMessage::Error => Some(false),
        ProbeMessage::Other => None,
    }
}

/// A stream from a local device whose profile is being looked for.
pub struct ProfileSearch {
    pub device: String,
    pub shape: Shape,
    /// The video is H264.
    pub is_h264: bool,
    /// The profiles tried so far, none of which the device has.
    pub tried: usize,
}

impl ProfileSearch {
    pub open spec fn wf(self) -> bool {
        self.tried <= PROFILES
    }

    /// The next pipeline to probe with, if a profile is left.
    pub fn next_probe(&self) -> (r: Option<String>)
        requires
            self.wf(),
        ensures
            r is Some <==> self.tried < PROFILES,
            r matches Some(description) ==> description@ == probe_text(
                self.device@,
                profile_text(self.tried as int),
                self.shape,
            ),
    {
        if self.tried < PROFILES {
            Some(probe_description(self.device.as_str(), profile_name(self.tried), self.shape))
        } else {
            None
        }
    }

    /// Notes that the device does not have the profile that was probed.
    pub fn reject(&mut self)
        requires
            old(self).wf(),
            old(self).tried < PROFILES,
        ensures
            final(self).wf(),
            *final(self) == (ProfileSearch { tried: (old(self).tried + 1) as usize, ..*old(self) }),
    {
        self.tried = self.tried + 1;
    }
}

/// A pipeline that captures from a local device in a fixed profile.
pub struct V4lPipeline {
    pub description: String,
}

impl V4lPipeline {
    /// Begins to look for the profile of a device.
    pub fn search(information: &VideoAndStreamInformation) -> (r: Result<ProfileSearch, V4lError>)
        ensures
            match r {
                Ok(search) => {
                    &&& information@.configuration matches CaptureView::Video {
                        encode,
                        height,
                        width,
                        frame_interval,
                    }
                    &&& information@.source matches SourceView::Local(_, device)
                    &&& search.device@ == device
                    &&& search.shape == (Shape { width, height, interval: frame_interval })
                    &&& search.is_h264 == (encode is H264)
                    &&& search.tried == 0
                    &&& search.wf()
                },
                Err(error) => if information@.configuration is Redirect {
                    error == V4lError::Configuration
                } else {
                    error == V4lError::SourceType && !(information@.source is Local)
                },
            },
    {
        let configuration = match &information.stream_information.configuration {
            CaptureConfiguration::VIDEO(configuration) => configuration,
            CaptureConfiguration::REDIRECT(_) => {
                return Err(V4lError::Configuration);
            },
        };
        let device = match &information.video_source {
            VideoSourceType::Local(source) => source.device_path.clone(),
            _ => {
                return Err(V4lError::SourceType);
            },
        };
        let is_h264 = match configuration.encode {
            VideoEncodeType::H264 => true,
            _ => false,
        };
        Ok(
            ProfileSearch {
                device,
                shape: Shape {
                    width: configuration.width,
                    height: configuration.height,
                    interval: configuration.frame_interval,
                },
                is_h264,
                tried: 0,
            },
        )
    }

    /// Plans the pipeline once the search is over: with the profile after those
    /// that were tried in vain, if one was left and the video is H264. The
    /// elements that others look for are called `filter` and `tee`.
    pub fn try_new(search: &ProfileSearch, filter: &str, tee: &str) -> (r: Result<
        V4lPipeline,
        V4lError,
    >)
        requires
            search.wf(),
        ensures
            match r {
                Ok(pipeline) => search.tried < PROFILES && search.is_h264
                    && pipeline.description@ == profiled_text(
                    search.device@,
                    profile_text(search.tried as int),
                    search.shape,
                    filter@,
                    tee@,
                ),
                Err(V4lError::Profile) => search.tried == PROFILES,
                Err(error) => error == V4lError::Encode && search.tried < PROFILES
                    && !search.is_h264,
            },
    {
        if search.tried >= PROFILES {
            return Err(V4lError::Profile);
        }
        if !search.is_h264 {
            return Err(V4lError::Encode);
        }
        Ok(
            V4lPipeline {
                description: profiled_description(
                    search.device.as_str(),
                    profile_name(search.tried),
                    search.shape,
                    filter,
                    tee,
                ),
            },
        )
    }
}

proof fn regroup(x: Seq<char>, a: Seq<char>, b: Seq<char>)
    ensures
        x + (a + b) == x + a + b,
{
    assert(x + (a + b) =~= x + a + b);
}

proof fn words_come_apart()
    ensures
        " do-timestamp=false num-buffers=1 ! h264parse ! video/x-h264,stream-format=avc,alignment=au,profile="@
            == " do-timestamp=false num-buffers=1 ! h264parse ! "@
            + "video/x-h264,stream-format=avc,alignment=au,profile="@,
        " caps=video/x-h264,stream-format=avc,alignment=au,profile="@ == " caps="@
            + "video/x-h264,stream-format=avc,alignment=au,profile="@,
{
    reveal_strlit(
        " do-timestamp=false num-buffers=1 ! h264parse ! video/x-h264,stream-format=avc,alignment=au,profile=",
    );
    reveal_strlit(" do-timestamp=false num-buffers=1 ! h264parse ! ");
    reveal_strlit("video/x-h264,stream-format=avc,alignment=au,profile=");
    reveal_strlit(" caps=video/x-h264,stream-format=avc,alignment=au,profile=");
    reveal_strlit(" caps=");
}

/// What is captured is what was probed: both ask the same device for the same video,
/// in the profile, with the width, height and rate that were configured.
pub proof fn captures_ask_for_what_was_probed(
    device: Seq<char>,
    profile: Seq<char>,
    shape: Shape,
    filter: Seq<char>,
    tee: Seq<char>,
)
    ensures
        ({
            let caps = "video/x-h264,stream-format=avc,alignment=au,profile="@ + profile
                + ",width="@ + decimal(shape.width as nat) + ",height="@ + decimal(
                shape.height as nat,
            ) + ",framerate="@ + decimal(shape.interval.denominator as nat) + "/"@ + decimal(
                shape.interval.numerator as nat,
            );
            &&& probe_text(device, profile, shape) == "v4l2src device="@ + device
                + " do-timestamp=false num-buffers=1 ! h264parse ! "@ + caps + " ! fakesink"@
            &&& profiled_text(device, profile, shape, filter, tee) == "v4l2src device="@ + device
                + " do-timestamp=false ! h264parse ! capsfilter name="@ + filter + " caps="@ + caps
                + " ! rtph264pay aggregate-mode=zero-latency config-interval=10 pt=96 timestamp-offset=0 ! tee name="@
                + tee + " allow-not-linked=true"@
        }),
{
    words_come_apart();
    let c0 = "video/x-h264,stream-format=avc,alignment=au,profile="@;
    let w = decimal(shape.width as nat);
    let h = decimal(shape.height as nat);
    let d = decimal(shape.interval.denominator as nat);
    let n = decimal(shape.interval.numerator as nat);
    caps_behind(
        "v4l2src device="@ + device + " do-timestamp=false num-buffers=1 ! h264parse ! "@,
        c0,
        profile,
        w,
        h,
        d,
        n,
    );
    caps_behind(
        "v4l2src device="@ + device + " do-timestamp=false ! h264parse ! capsfilter name="@ + filter
            + " caps="@,
        c0,
        profile,
        w,
        h,
        d,
        n,
    );
    regroup(
        "v4l2src device="@ + device,
        " do-timestamp=false num-buffers=1 ! h264parse ! "@,
        c0,
    );
    regroup(
        "v4l2src device="@ + device + " do-timestamp=false ! h264parse ! capsfilter name="@ + filter,
        " caps="@,
        c0,
    );
}

proof fn caps_behind(
    x: Seq<char>,
    c: Seq<char>,
    p: Seq<char>,
    w: Seq<char>,
    h: Seq<char>,
    d: Seq<char>,
    n: Seq<char>,
)
    ensures
        x + (c + p + ",width="@ + w + ",height="@ + h + ",framerate="@ + d + "/"@ + n) == x + c + p
            + ",width="@ + w + ",height="@ + h + ",framerate="@ + d + "/"@ + n,
{
    regroup(x, c, p);
    regroup(x, c + p, ",width="@);
    let a = c + p + ",width="@;
    regroup(x, a, w);
    regroup(x, a + w, ",height="@);
    let b = a + w + ",height="@;
    regroup(x, b, h);
    regroup(x, b + h, ",framerate="@);
    let e = b + h + ",framerate="@;
    regroup(x, e, d);
    regroup(x, e + d, "/"@);
    regroup(x, e + d + "/"@, n);
}

/// The profiles are tried from the most widely understood on: constrained baseline,
/// baseline, main, high.
pub proof fn profiles_are_tried_in_order(i: int)
    ensures
        PROFILES == 4,
        i == 0 ==> profile_text(i) == "constrained-baseline"@,
        i == 1 ==> profile_text(i) == "baseline"@,
        i == 2 ==> profile_text(i) == "main"@,
        i == 3 ==> profile_text(i) == "high"@,
{
}

} // verus!
