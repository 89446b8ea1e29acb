//! Streams whose video is decoded, encoded or both on the way.
use vstd::prelude::*;

use crate::stream::types::{FrameInterval, VideoEncodeType, VideoSourceType};

verus! {

/// The value of an encoder property.
pub enum EncoderValue {
    Bool(bool),
    Integer(i64),
    /// A number with a fraction: its bits, and the integer that stands for it
    /// among controls.
    Number { bits: u64, api: i64 },
    Text(String),
}

/// What an [`EncoderValue`] stands for.
pub enum EncoderValueView {
    Bool(bool),
    Integer(i64),
    Number { bits: u64, api: i64 },
    Text(Seq<char>),
}

impl View for EncoderValue {
    type V = EncoderValueView;

    open spec fn view(&self) -> EncoderValueView {
        match self {
            EncoderValue::Bool(b) => EncoderValueView::Bool(*b),
            EncoderValue::Integer(i) => EncoderValueView::Integer(*i),
            EncoderValue::Number { bits, api } => EncoderValueView::Number {
                bits: *bits,
                api: *api,
            },
            EncoderValue::Text(s) => EncoderValueView::Text(s@),
        }
    }
}

impl Clone for EncoderValue {
    fn clone(&self) -> (r: EncoderValue)
        ensures
            r@ == self@,
    {
        match self {
            EncoderValue::Bool(b) => EncoderValue::Bool(*b),
            EncoderValue::Integer(i) => EncoderValue::Integer(*i),
            EncoderValue::Number { bits, api } => EncoderValue::Number { bits: *bits, api: *api },
            EncoderValue::Text(s) => EncoderValue::Text(s.clone()),
        }
    }
}

/// A property of an encoder and its value.
pub struct EncoderProperty {
    pub name: String,
    pub value: EncoderValue,
}

pub open spec fn encoder_property_views(s: Seq<EncoderProperty>) -> Seq<
    (Seq<char>, EncoderValueView),
> {
    s.map_values(|p: EncoderProperty| (p.name@, p.value@))
}

/// Transcoding with elements that the user picks. Properties are in the order
/// of their names, each name once.
pub struct ManualTranscodingConfig {
    pub encoder: String,
    pub encoder_properties: Vec<EncoderProperty>,
    pub decoder: String,
    pub decoder_properties: Vec<EncoderProperty>,
}

/// How a source is turned into what is sent.
pub enum SourceConfiguration {
    /// Not at all.
    Classic,
    /// By elements that are picked automatically.
    AutoTranscoding,
    ManualTranscoding(ManualTranscodingConfig),
}

/// How a device is asked to capture, and what is made of it.
pub struct TranscodingCaptureConfiguration {
    pub source_encode: VideoEncodeType,
    pub sink_encode: VideoEncodeType,
    pub height: u32,
    pub width: u32,
    pub frame_interval: FrameInterval,
    pub bit_depth: Option<u32>,
    pub source_configuration: SourceConfiguration,
    pub auto_restart_on_config_change: bool,
}

pub enum TranscodingCapture {
    Video(TranscodingCaptureConfiguration),
    Redirect,
}

/// A stream that may be transcoded.
pub struct TranscodedStream {
    pub name: String,
    pub configuration: TranscodingCapture,
    pub video_source: VideoSourceType,
}

/// A value is of the kind that it is, a number with a fraction by its bits and by the
/// integer that stands for it.
pub proof fn values_are_of_their_kind(value: EncoderValue)
    ensures
        value matches EncoderValue::Bool(b) ==> value@ == EncoderValueView::Bool(b),
        value matches EncoderValue::Integer(i) ==> value@ == EncoderValueView::Integer(i),
        value matches EncoderValue::Number { bits, api } ==> value@ == (EncoderValueView::Number {
            bits,
            api,
        }),
        value matches EncoderValue::Text(s) ==> value@ == EncoderValueView::Text(s@),
{
}

} // verus!
