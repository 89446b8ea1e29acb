//! The zenoh sink: encoded frames, published one by one.
use vstd::prelude::*;

use crate::stream::element::{
    element_views, property_views, ElementSpec, ElementView, Property, PropertyValue,
    PropertyValueView,
};
use crate::stream::peer_id::{id_text, PeerId};
use crate::stream::sink::branch::{attach_steps, BranchWork, Cleanup, Removal, WorkKind};
use crate::stream::sink::udp_sink::AlreadyLinked;
use crate::stream::sink::unlinking::{unlink_steps, Unlinking};
use crate::stream::teardown::{shutdown_session, shutdown_steps, SessionStep};
use crate::stream::types::{EncodeView, VideoEncodeType};

verus! {

/// Frames of this size and above are not published, in bytes.
pub const FRAME_LIMIT: usize = 1_048_576;

/// How many frames wait to be published at most.
pub const CHANNEL_CAPACITY: usize = 100;

/// The queue between the tee and the bridge: everything beyond what passes at
/// once is dropped.
pub open spec fn queue_view() -> ElementView {
    ElementView::of("queue"@).text("leaky"@, "downstream"@).boolean("silent"@, true).boolean(
        "flush-on-eos"@,
        true,
    ).uint32("max-size-buffers"@, 0u32)
}

fn make_queue() -> (r: ElementSpec)
    ensures
        r@ == queue_view(),
{
    ElementSpec::of("queue").text("leaky", "downstream").boolean("silent", true).boolean(
        "flush-on-eos",
        true,
    ).uint32("max-size-buffers", 0)
}

/// Lets key frames through only.
pub open spec fn key_frame_filter_view() -> ElementView {
    ElementView::of("identity"@).text("drop-buffer-flags"@, "delta-unit"@).boolean("sync"@, false)
}

pub open spec fn h264_decoder_view() -> ElementView {
    ElementView::of("avdec_h264"@).text("lowres"@, "2"@).if_known(
        "discard-corrupted-frames"@,
        PropertyValueView::Bool(true),
    )
}

pub open spec fn h265_decoder_view() -> ElementView {
    ElementView::of("avdec_h265"@).text("lowres"@, "2"@).if_known(
        "discard-corrupted-frames"@,
        PropertyValueView::Bool(true),
    ).if_known("std-compliance"@, PropertyValueView::Text("normal"@))
}

pub open spec fn jpeg_decoder_view() -> ElementView {
    ElementView::of("jpegdec"@).if_known("discard-corrupted-frames"@, PropertyValueView::Bool(true))
}

/// What turns an encoding into raw video, if the sink knows how.
pub open spec fn transcoding_views(encode: EncodeView) -> Option<Seq<ElementView>> {
    let convert = ElementView::of("videoconvert"@);
    match encode {
        EncodeView::H264 => Some(seq![key_frame_filter_view(), h264_decoder_view(), convert]),
        EncodeView::H265 => Some(seq![key_frame_filter_view(), h265_decoder_view(), convert]),
        EncodeView::Mjpg => Some(seq![jpeg_decoder_view(), convert]),
        EncodeView::Rgb => Some(seq![convert]),
        EncodeView::Yuyv => Some(seq![convert]),
        _ => None,
    }
}

/// The encoding is not one that the sink can decode.
#[derive(Clone, Copy, Debug, PartialEq, Eq, Structural)]
pub struct UnsupportedEncoding;

fn key_frame_filter() -> (r: ElementSpec)
    ensures
        r@ == key_frame_filter_view(),
{
    ElementSpec::of("identity").text("drop-buffer-flags", "delta-unit").boolean("sync", false)
}

fn transcoding_elements(encode: &VideoEncodeType) -> (r: Result<
    Vec<ElementSpec>,
    UnsupportedEncoding,
>)
    ensures
        match r {
            Ok(elements) => transcoding_views(encode@) == Some(element_views(elements@)),
            Err(_) => transcoding_views(encode@) is None,
        },
{
    let mut elements: Vec<ElementSpec> = Vec::new();
    match encode {
        VideoEncodeType::H264 => {
            elements.push(key_frame_filter());
            elements.push(
                ElementSpec::of("avdec_h264").text("lowres", "2").if_known(
                    "discard-corrupted-frames",
                    PropertyValue::Bool(true),
                ),
            );
        },
        VideoEncodeType::H265 => {
            elements.push(key_frame_filter());
            elements.push(
                ElementSpec::of("avdec_h265").text("lowres", "2").if_known(
                    "discard-corrupted-frames",
                    PropertyValue::Bool(true),
                ).if_known("std-compliance", PropertyValue::Text("normal".to_owned())),
            );
        },
        VideoEncodeType::Mjpg => {
            elements.push(
                ElementSpec::of("jpegdec").if_known(
                    "discard-corrupted-frames",
                    PropertyValue::Bool(true),
                ),
            );
        },
        VideoEncodeType::Rgb => {},
        VideoEncodeType::Yuyv => {},
        _ => {
            return Err(UnsupportedEncoding);
        },
    }
    elements.push(ElementSpec::of("videoconvert"));
    assert(element_views(elements@) =~= transcoding_views(encode@)->0);
    Ok(elements)
}

pub open spec fn appsink_view(sink_id: PeerId) -> ElementView {
    ElementView::of("appsink"@).named("AppSink-"@ + id_text(sink_id.value)).boolean(
        "sync"@,
        false,
    ).uint32("max-buffers"@, 1u32).boolean("drop"@, true).text(
        "caps"@,
        "video/x-h264,stream-format=byte-stream,alignment=au"@,
    )
}

pub open spec fn proxysrc_queue_view() -> Seq<(Seq<char>, PropertyValueView)> {
    queue_view().properties
}

/// The settings of the queue inside `proxysrc`.
pub fn proxysrc_queue_properties() -> (r: Vec<Property>)
    ensures
        property_views(r@) == proxysrc_queue_view(),
{
    make_queue().properties
}

/// A zenoh sink to be made, and whether it is linked. The elements of its own
/// pipeline are linked in the order `proxysrc`, `transcoding`, `appsink`.
pub struct ZenohSink {
    pub sink_id: PeerId,
    pub pipeline_name: String,
    pub queue: ElementSpec,
    pub transcoding: Vec<ElementSpec>,
    pub appsink: ElementSpec,
    pub has_tee_pad: bool,
}

impl ZenohSink {
    /// Plans a zenoh sink for video of an encoding.
    pub fn try_new(sink_id: PeerId, encoding: &VideoEncodeType) -> (r: Result<
        ZenohSink,
        UnsupportedEncoding,
    >)
        ensures
            match r {
                Ok(sink) => {
                    &&& transcoding_views(encoding@) == Some(element_views(sink.transcoding@))
                    &&& sink.sink_id == sink_id
                    &&& sink.pipeline_name@ == "pipeline-sink-"@ + id_text(sink_id.value)
                    &&& sink.queue@ == queue_view()
                    &&& sink.appsink@ == appsink_view(sink_id)
                    &&& !sink.has_tee_pad
                },
                Err(_) => transcoding_views(encoding@) is None,
            },
    {
        let queue = make_queue();
        let transcoding = match transcoding_elements(encoding) {
            Ok(elements) => elements,
            Err(error) => {
                return Err(error);
            },
        };
        let id = sink_id.text();
        let mut appsink_name = "AppSink-".to_owned();
        appsink_name.append(id.as_str());
        let appsink = ElementSpec::of("appsink").named(appsink_name.as_str()).boolean(
            "sync",
            false,
        ).uint32("max-buffers", 1).boolean("drop", true).text(
            "caps",
            "video/x-h264,stream-format=byte-stream,alignment=au",
        );
        let mut pipeline_name = "pipeline-sink-".to_owned();
        pipeline_name.append(id.as_str());
        Ok(
            ZenohSink {
                sink_id,
                pipeline_name,
                queue,
                transcoding,
                appsink,
                has_tee_pad: false,
            },
        )
    }

    /// Begins to link the sink to a tee: a queue and a `proxysink`. Refused
    /// where the sink has a pad already.
    pub fn link(&mut self) -> (r: Result<BranchWork, AlreadyLinked>)
        ensures
            r is Err <==> old(self).has_tee_pad,
            r matches Ok(work) ==> work.wf() && work.kind == WorkKind::Attach(Cleanup::Thorough)
                && work.size == 2 && work.failed is None && work.remaining() == attach_steps(2),
            *final(self) == (ZenohSink { has_tee_pad: true, ..*old(self) }),
    {
        if self.has_tee_pad {
            return Err(AlreadyLinked);
        }
        self.has_tee_pad = true;
        Ok(BranchWork::attach(2, Cleanup::Thorough))
    }

    /// Begins to unlink the sink: its session goes to `Null`, then its branch is
    /// taken off. There is nothing to do where the sink was never linked.
    pub fn unlink(&self) -> (r: Option<Unlinking>)
        ensures
            r is Some <==> self.has_tee_pad,
            r matches Some(unlinking) ==> {
                &&& unlinking.wf()
                &&& unlinking.work.kind == WorkKind::Detach(Removal::Demanded)
                &&& unlinking.work.size == 2
                &&& unlinking.work.failed is None
                &&& unlinking.session_left() == shutdown_steps(false)
                &&& unlinking.remaining() == unlink_steps(false, 2)
            },
    {
        if self.has_tee_pad {
            Some(Unlinking::new(false, 2))
        } else {
            None
        }
    }

    /// How the session of the sink is shut down, linked or not, as when the sink is
    /// dropped.
    pub fn shutdown_session(&self) -> (r: Vec<SessionStep>)
        ensures
            r@ == shutdown_steps(false),
    {
        shutdown_session(false)
    }

    /// Whether end of stream is posted on the bus of the session when the sink is
    /// told of it: it is not, the session is shut down instead.
    pub fn eos(&self) -> (r: bool)
        ensures
            !r,
    {
        false
    }

    pub fn get_id(&self) -> (r: PeerId)
        ensures
            r == self.sink_id,
    {
        self.sink_id
    }
}

/// Whether a frame is published: it holds something, and less than the limit.
pub fn accepts_frame(len: usize) -> (r: bool)
    ensures
        r == (0 < len < FRAME_LIMIT),
{
    len > 0 && len < FRAME_LIMIT
}

/// Every encoding that streams are published in can be decoded, after all but key
/// frames were left out; and whatever is decoded is converted last.
pub proof fn published_encodings_are_supported(encode: EncodeView)
    ensures
        encode is H264 || encode is H265 ==> transcoding_views(encode) is Some
            && transcoding_views(encode)->0[0] == key_frame_filter_view(),
        transcoding_views(encode) matches Some(elements) ==> elements.last() == ElementView::of(
            "videoconvert"@,
        ),
{
}

/// Video is decoded by the decoder of its encoding and converted last; of H264 and
/// H265 only key frames are decoded; raw video is only converted. Nothing else is
/// taken.
pub proof fn video_is_decoded_in_kind(encode: EncodeView)
    ensures
        ({
            let elements = transcoding_views(encode);
            let e = elements->0;
            &&& elements is Some <==> encode is H264 || encode is H265 || encode is Mjpg
                || encode is Rgb || encode is Yuyv
            &&& encode is H264 ==> e.len() == 3 && e[0].factory == "identity"@ && e[1].factory
                == "avdec_h264"@
            &&& encode is H265 ==> e.len() == 3 && e[0].factory == "identity"@ && e[1].factory
                == "avdec_h265"@
            &&& encode is Mjpg ==> e.len() == 2 && e[0].factory == "jpegdec"@
            &&& encode is Rgb || encode is Yuyv ==> e.len() == 1
            &&& elements is Some ==> e.last().factory == "videoconvert"@
            &&& encode is H264 || encode is H265 ==> e[0].properties == seq![
                ("drop-buffer-flags"@, PropertyValueView::Text("delta-unit"@)),
                ("sync"@, PropertyValueView::Bool(false)),
            ] && e[1].properties == seq![("lowres"@, PropertyValueView::Text("2"@))]
        }),
{
    assert(key_frame_filter_view().properties =~= seq![
        ("drop-buffer-flags"@, PropertyValueView::Text("delta-unit"@)),
        ("sync"@, PropertyValueView::Bool(false)),
    ]);
    assert(h264_decoder_view().properties =~= seq![
        ("lowres"@, PropertyValueView::Text("2"@)),
    ]);
    assert(h265_decoder_view().properties =~= seq![
        ("lowres"@, PropertyValueView::Text("2"@)),
    ]);
}

/// The queue in front of a sink drops the oldest, is silent and empties at the end of
/// the stream; frames come out of a sink one by one, as whole H264 access units, under
/// a name of its own.
pub proof fn frames_come_out_one_by_one(sink_id: PeerId)
    ensures
        queue_view().factory == "queue"@,
        queue_view().properties == seq![
            ("leaky"@, PropertyValueView::Text("downstream"@)),
            ("silent"@, PropertyValueView::Bool(true)),
            ("flush-on-eos"@, PropertyValueView::Bool(true)),
            ("max-size-buffers"@, PropertyValueView::UInt(0u32)),
        ],
        proxysrc_queue_view() == queue_view().properties,
        appsink_view(sink_id).factory == "appsink"@,
        appsink_view(sink_id).name == Some("AppSink-"@ + id_text(sink_id.value)),
        appsink_view(sink_id).properties == seq![
            ("sync"@, PropertyValueView::Bool(false)),
            ("max-buffers"@, PropertyValueView::UInt(1u32)),
            ("drop"@, PropertyValueView::Bool(true)),
            (
                "caps"@,
                PropertyValueView::Text("video/x-h264,stream-format=byte-stream,alignment=au"@),
            ),
        ],
{
    assert(queue_view().properties =~= seq![
        ("leaky"@, PropertyValueView::Text("downstream"@)),
        ("silent"@, PropertyValueView::Bool(true)),
        ("flush-on-eos"@, PropertyValueView::Bool(true)),
        ("max-size-buffers"@, PropertyValueView::UInt(0u32)),
    ]);
    assert(appsink_view(sink_id).properties =~= seq![
        ("sync"@, PropertyValueView::Bool(false)),
        ("max-buffers"@, PropertyValueView::UInt(1u32)),
        ("drop"@, PropertyValueView::Bool(true)),
        (
            "caps"@,
            PropertyValueView::Text("video/x-h264,stream-format=byte-stream,alignment=au"@),
        ),
    ]);
}

} // verus!
