//! Pipelines that encode raw video with an encoder that the user picks.
use vstd::prelude::*;

use crate::stream::peer_id::{id_text, PeerId};
use crate::stream::pipeline::parts::{parts_of, PartsView, PipelineNames};
use crate::stream::transcoding_types::{
    encoder_property_views, EncoderProperty, EncoderValue, EncoderValueView,
    ManualTranscodingConfig,
};
use crate::stream::types::{EncodeView, VideoEncodeType};
use crate::text::{append_u64, decimal};

verus! {

/// Only raw video is encoded.
#[derive(Clone, Copy, Debug, PartialEq, Eq, Structural)]
pub struct UnsupportedRawFormat;

/// The format of raw video, as filters name it.
pub open spec fn raw_format_of(encode: EncodeView) -> Option<Seq<char>> {
    match encode {
        EncodeView::Nv12 => Some("NV12"@),
        EncodeView::Yuyv => Some("YUY2"@),
        EncodeView::Rgb => Some("RGB"@),
        _ => None,
    }
}

fn raw_caps_format(source_encode: &VideoEncodeType) -> (r: Result<
    &'static str,
    UnsupportedRawFormat,
>)
    ensures
        match r {
            Ok(format) => raw_format_of(source_encode@) == Some(format@),
            Err(_) => raw_format_of(source_encode@) is None,
        },
{
    match source_encode {
        VideoEncodeType::Nv12 => Ok("NV12"),
        VideoEncodeType::Yuyv => Ok("YUY2"),
        VideoEncodeType::Rgb => Ok("RGB"),
        _ => Err(UnsupportedRawFormat),
    }
}

/// How many threads encode: half of those that the machine runs at once, at
/// least one; one where their number is not known.
pub open spec fn encoder_threads(parallelism: Option<usize>) -> usize {
    match parallelism {
        Some(count) => if count / 2 > 1 {
            (count / 2) as usize
        } else {
            1
        },
        None => 1,
    }
}

/// Picks how many threads encode.
pub fn threads_for(parallelism: Option<usize>) -> (r: usize)
    ensures
        r == encoder_threads(parallelism),
        r >= 1,
{
    match parallelism {
        Some(count) => if count / 2 > 1 {
            count / 2
        } else {
            1
        },
        None => 1,
    }
}

/// The whole pipeline, as a description.
pub open spec fn manual_text(
    device_path: Seq<char>,
    raw_format: Seq<char>,
    encoder: Seq<char>,
    parts: PartsView,
    width: u32,
    height: u32,
    threads: usize,
) -> Seq<char> {
    "libcamerasrc name=source camera-name="@
        + device_path
        + " ! video/x-raw,format="@
        + raw_format
        + ",width="@
        + decimal(width as nat)
        + ",height="@
        + decimal(height as nat)
        + " ! queue leaky=downstream max-size-buffers=2 max-size-time=0 max-size-bytes=0 ! videoconvert ! "@
        + encoder
        + " name=encoder speed-preset=ultrafast tune=zerolatency key-int-max=60 bitrate=4000 bframes=0 threads="@
        + decimal(threads as nat)
        + " ! h264parse config-interval=-1 ! capsfilter name="@
        + parts.filter
        + " caps=video/x-h264,stream-format=avc,alignment=au,width="@
        + decimal(width as nat)
        + ",height="@
        + decimal(height as nat)
        + " ! tee name="@
        + parts.video_tee
        + " allow-not-linked=true ! rtph264pay aggregate-mode=zero-latency config-interval=-1 pt=96 ! tee name="@
        + parts.rtp_tee
        + " allow-not-linked=true"@
}

/// What can be turned into a pipeline description.
pub trait TranscodingPipeline {
    spec fn text(
        &self,
        device_path: Seq<char>,
        id: PeerId,
        names: PipelineNames,
        threads: usize,
    ) -> Option<Seq<char>>;

    fn launch_description(
        &self,
        device_path: &str,
        id: PeerId,
        names: &PipelineNames,
        threads: usize,
    ) -> (r: Result<String, UnsupportedRawFormat>)
        ensures
            match r {
                Ok(description) => self.text(device_path@, id, *names, threads) == Some(
                    description@,
                ),
                Err(_) => self.text(device_path@, id, *names, threads) is None,
            },
    ;
}

/// Raw video from a camera, encoded to H264 by an encoder of the user's choice.
pub struct ManualH264TranscodingPipeline {
    pub source_encode: VideoEncodeType,
    pub width: u32,
    pub height: u32,
    pub manual_config: ManualTranscodingConfig,
}

impl TranscodingPipeline for ManualH264TranscodingPipeline {
    open spec fn text(
        &self,
        device_path: Seq<char>,
        id: PeerId,
        names: PipelineNames,
        threads: usize,
    ) -> Option<Seq<char>> {
        match raw_format_of(self.source_encode@) {
            Some(raw_format) => Some(
                manual_text(
                    device_path,
                    raw_format,
                    self.manual_config.encoder@,
                    parts_of(names, id),
                    self.width,
                    self.height,
                    threads,
                ),
            ),
            None => None,
        }
    }

    fn launch_description(
        &self,
        device_path: &str,
        id: PeerId,
        names: &PipelineNames,
        threads: usize,
    ) -> (r: Result<String, UnsupportedRawFormat>) {
        let raw_format = match raw_caps_format(&self.source_encode) {
            Ok(format) => format,
            Err(error) => {
                return Err(error);
            },
        };
        let parts = names.parts(id);
        Ok(self.describe(device_path, raw_format, &parts, threads))
    }
}

/// A property that is set on a running encoder.
pub enum PropertySetting {
    /// Set as the number that stands for it among controls.
    FromApi { name: String, api: i64 },
    /// Set as it is.
    Direct { name: String, value: EncoderValue },
}

/// What a [`PropertySetting`] stands for.
pub enum SettingView {
    FromApi { name: Seq<char>, api: i64 },
    Direct { name: Seq<char>, value: EncoderValueView },
}

impl View for PropertySetting {
    type V = SettingView;

    open spec fn view(&self) -> SettingView {
        match self {
            PropertySetting::FromApi { name, api } => SettingView::FromApi {
                name: name@,
                api: *api,
            },
            PropertySetting::Direct { name, value } => SettingView::Direct {
                name: name@,
                value: value@,
            },
        }
    }
}

/// How a property is set: integers go the way that controls do, everything else
/// is set as it is.
pub open spec fn setting_of(name: Seq<char>, value: EncoderValueView) -> SettingView {
    match value {
        EncoderValueView::Integer(i) => SettingView::FromApi { name, api: i },
        other => SettingView::Direct { name, value: other },
    }
}

fn apply_property_value(property: &EncoderProperty) -> (r: PropertySetting)
    ensures
        r@ == setting_of(property.name@, property.value@),
{
    match &property.value {
        EncoderValue::Integer(i) => PropertySetting::FromApi {
            name: property.name.clone(),
            api: *i,
        },
        other => PropertySetting::Direct { name: property.name.clone(), value: other.clone() },
    }
}

pub open spec fn setting_views(s: Seq<PropertySetting>) -> Seq<SettingView> {
    s.map_values(|p: PropertySetting| p@)
}

/// The settings of all properties, in order.
pub open spec fn settings_of(properties: Seq<(Seq<char>, EncoderValueView)>) -> Seq<SettingView> {
    properties.map_values(|p: (Seq<char>, EncoderValueView)| setting_of(p.0, p.1))
}

/// The pipeline has no element of the name `encoder`.
#[derive(Clone, Copy, Debug, PartialEq, Eq, Structural)]
pub struct MissingEncoder;

impl MissingEncoder {
    pub fn message(&self) -> (r: String)
        ensures
            r@ == "Manual transcoding pipeline is missing the encoder element"@,
    {
        "Manual transcoding pipeline is missing the encoder element".to_owned()
    }
}

impl ManualH264TranscodingPipeline {
    fn describe(
        &self,
        device_path: &str,
        raw_format: &str,
        parts: &crate::stream::pipeline::parts::PipelineParts,
        threads: usize,
    ) -> (r: String)
        ensures
            r@ == manual_text(
                device_path@,
                raw_format@,
                self.manual_config.encoder@,
                parts@,
                self.width,
                self.height,
                threads,
            ),
    {
        let mut s = "libcamerasrc name=source camera-name=".to_owned();
        s.append(device_path);
        s.append(" ! video/x-raw,format=");
        s.append(raw_format);
        s.append(",width=");
        append_u64(&mut s, self.width as u64);
        s.append(",height=");
        append_u64(&mut s, self.height as u64);
        s.append(" ! queue leaky=downstream max-size-buffers=2 max-size-time=0 max-size-bytes=0 ! videoconvert ! ");
        s.append(self.manual_config.encoder.as_str());
        s.append(" name=encoder speed-preset=ultrafast tune=zerolatency key-int-max=60 bitrate=4000 bframes=0 threads=");
        append_u64(&mut s, threads as u64);
        s.append(" ! h264parse config-interval=-1 ! capsfilter name=");
        s.append(parts.filter.as_str());
        s.append(" caps=video/x-h264,stream-format=avc,alignment=au,width=");
        append_u64(&mut s, self.width as u64);
        s.append(",height=");
        append_u64(&mut s, self.height as u64);
        s.append(" ! tee name=");
        s.append(parts.video_tee.as_str());
        s.append(" allow-not-linked=true ! rtph264pay aggregate-mode=zero-latency config-interval=-1 pt=96 ! tee name=");
        s.append(parts.rtp_tee.as_str());
        s.append(" allow-not-linked=true");
        s
    }

    /// What is set on the encoder of the running pipeline, and on no other element,
    /// in order: everything, whether the encoder takes the one before or not.
    /// `has_encoder` says whether the pipeline has an element of the name
    /// `encoder`; without it nothing is set.
    pub fn apply_runtime_properties(&self, has_encoder: bool) -> (r: Result<
        Vec<PropertySetting>,
        MissingEncoder,
    >)
        ensures
            r is Err <==> !has_encoder,
            r matches Ok(settings) ==> setting_views(settings@) == settings_of(
                encoder_property_views(self.manual_config.encoder_properties@),
            ),
    {
        if !has_encoder {
            return Err(MissingEncoder);
        }
        let properties = &self.manual_config.encoder_properties;
        let mut r: Vec<PropertySetting> = Vec::new();
        let mut i: usize = 0;
        while i < properties.len()
            invariant
                i <= properties.len(),
                r.len() == i,
                forall|j: int|
                    0 <= j < i ==> (#[trigger] r[j])@ == setting_of(
                        properties[j].name@,
                        properties[j].value@,
                    ),
            decreases properties.len() - i,
        {
            r.push(apply_property_value(&properties[i]));
            i += 1;
        }
        assert(setting_views(r@) =~= settings_of(encoder_property_views(properties@)));
        Ok(r)
    }
}

/// Half of the threads that the machine runs encode, rounded down, but one at least.
pub proof fn half_of_the_threads_encode(parallelism: Option<usize>)
    ensures
        ({
            let threads = encoder_threads(parallelism);
            &&& threads >= 1
            &&& parallelism is None ==> threads == 1
            &&& parallelism matches Some(count) ==> count <= 2 * threads + 1 && (threads > 1 ==> 2
                * threads <= count)
        }),
{
}

proof fn regroup(x: Seq<char>, a: Seq<char>, b: Seq<char>)
    ensures
        x + (a + b) == x + a + b,
{
    assert(x + (a + b) =~= x + a + b);
}

proof fn caps_come_apart()
    ensures
        " caps=video/x-h264,stream-format=avc,alignment=au,width="@
            == " caps=video/x-h264,stream-format=avc,alignment=au"@ + ",width="@,
{
    reveal_strlit(" caps=video/x-h264,stream-format=avc,alignment=au,width=");
    reveal_strlit(" caps=video/x-h264,stream-format=avc,alignment=au");
    reveal_strlit(",width=");
}

/// The camera is asked for raw video of one size and the encoded video has the same:
/// the width and the height that were configured. The camera is the one that was
/// named, the raw format the one that the source encoding stands for, and the encoder
/// the one that was picked.
pub proof fn encoded_video_has_the_size_of_the_raw(
    pipeline: ManualH264TranscodingPipeline,
    device_path: Seq<char>,
    id: PeerId,
    names: PipelineNames,
    threads: usize,
)
    ensures
        ({
            let encode = pipeline.source_encode@;
            let known = encode is Nv12 || encode is Yuyv || encode is Rgb;
            let format = if encode is Nv12 {
                "NV12"@
            } else if encode is Yuyv {
                "YUY2"@
            } else {
                "RGB"@
            };
            let size = ",width="@ + decimal(pipeline.width as nat) + ",height="@ + decimal(
                pipeline.height as nat,
            );
            let filter = names.filter@ + "-"@ + id_text(id.value);
            let video_tee = names.video_tee@ + "-"@ + id_text(id.value);
            let rtp_tee = names.rtp_tee@ + "-"@ + id_text(id.value);
            let text = pipeline.text(device_path, id, names, threads);
            &&& text is Some <==> known
            &&& known ==> text->0 == "libcamerasrc name=source camera-name="@ + device_path
                + " ! video/x-raw,format="@ + format + size
                + " ! queue leaky=downstream max-size-buffers=2 max-size-time=0 max-size-bytes=0 ! videoconvert ! "@
                + pipeline.manual_config.encoder@
                + " name=encoder speed-preset=ultrafast tune=zerolatency key-int-max=60 bitrate=4000 bframes=0 threads="@
                + decimal(threads as nat) + " ! h264parse config-interval=-1 ! capsfilter name="@
                + filter + " caps=video/x-h264,stream-format=avc,alignment=au"@ + size
                + " ! tee name="@ + video_tee
                + " allow-not-linked=true ! rtph264pay aggregate-mode=zero-latency config-interval=-1 pt=96 ! tee name="@
                + rtp_tee + " allow-not-linked=true"@
        }),
{
    let encode = pipeline.source_encode@;
    let w = decimal(pipeline.width as nat);
    let h = decimal(pipeline.height as nat);
    let size = ",width="@ + w + ",height="@ + h;
    if raw_format_of(encode) is Some {
        let format = raw_format_of(encode)->0;
        let raw = "libcamerasrc name=source camera-name="@ + device_path
            + " ! video/x-raw,format="@ + format;
        regroup(raw, ",width="@ + w + ",height="@, h);
        regroup(raw, ",width="@ + w, ",height="@);
        regroup(raw, ",width="@, w);
        let filtered = raw + size
            + " ! queue leaky=downstream max-size-buffers=2 max-size-time=0 max-size-bytes=0 ! videoconvert ! "@
            + pipeline.manual_config.encoder@
            + " name=encoder speed-preset=ultrafast tune=zerolatency key-int-max=60 bitrate=4000 bframes=0 threads="@
            + decimal(threads as nat) + " ! h264parse config-interval=-1 ! capsfilter name="@
            + parts_of(names, id).filter;
        caps_come_apart();
        let caps = " caps=video/x-h264,stream-format=avc,alignment=au"@;
        regroup(filtered, caps, ",width="@);
        regroup(filtered + caps, ",width="@ + w + ",height="@, h);
        regroup(filtered + caps, ",width="@ + w, ",height="@);
        regroup(filtered + caps, ",width="@, w);
    }
}

/// Every property is set once, under its own name and in order: integers the way that
/// controls are set, everything else as it is.
pub proof fn properties_are_set_in_order(
    properties: Seq<(Seq<char>, EncoderValueView)>,
    i: int,
)
    requires
        0 <= i < properties.len(),
    ensures
        settings_of(properties).len() == properties.len(),
        properties[i].1 matches EncoderValueView::Integer(n) ==> settings_of(properties)[i]
            == (SettingView::FromApi { name: properties[i].0, api: n }),
        !(properties[i].1 is Integer) ==> settings_of(properties)[i] == (SettingView::Direct {
            name: properties[i].0,
            value: properties[i].1,
        }),
{
}

} // verus!
