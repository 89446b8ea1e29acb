//! What pipeline descriptions have in common.
use vstd::prelude::*;

use crate::stream::peer_id::{id_text, PeerId};
use crate::stream::types::FrameInterval;

verus! {

/// The systems whose elements differ.
#[derive(Clone, Copy, Debug, PartialEq, Eq, Structural)]
pub enum Platform {
    Linux,
    MacOs,
    Windows,
}

/// How the elements are called that others look for in a pipeline.
pub struct PipelineNames {
    pub filter: String,
    pub video_tee: String,
    pub rtp_tee: String,
}

/// The names of those elements in one pipeline.
pub struct PipelineParts {
    pub filter: String,
    pub video_tee: String,
    pub rtp_tee: String,
}

/// What [`PipelineParts`] stand for.
#[verifier::ext_equal]
pub struct PartsView {
    pub filter: Seq<char>,
    pub video_tee: Seq<char>,
    pub rtp_tee: Seq<char>,
}

impl View for PipelineParts {
    type V = PartsView;

    open spec fn view(&self) -> PartsView {
        PartsView { filter: self.filter@, video_tee: self.video_tee@, rtp_tee: self.rtp_tee@ }
    }
}

/// A name made unique by the identity of the pipeline.
pub open spec fn part_name(prefix: Seq<char>, id: PeerId) -> Seq<char> {
    prefix + "-"@ + id_text(id.value)
}

pub open spec fn parts_of(names: PipelineNames, id: PeerId) -> PartsView {
    PartsView {
        filter: part_name(names.filter@, id),
        video_tee: part_name(names.video_tee@, id),
        rtp_tee: part_name(names.rtp_tee@, id),
    }
}

fn with_id(prefix: &str, id: &str) -> (r: String)
    ensures
        r@ == prefix@ + "-"@ + id@,
{
    let mut s = prefix.to_owned();
    s.append("-");
    s.append(id);
    s
}

impl PipelineNames {
    /// The names in the pipeline with the given identity.
    pub fn parts(&self, id: PeerId) -> (r: PipelineParts)
        ensures
            r@ == parts_of(*self, id),
    {
        let text = id.text();
        PipelineParts {
            filter: with_id(self.filter.as_str(), text.as_str()),
            video_tee: with_id(self.video_tee.as_str(), text.as_str()),
            rtp_tee: with_id(self.rtp_tee.as_str(), text.as_str()),
        }
    }
}

/// Names a pipeline: what it is, and its identity.
pub fn pipeline_name(prefix: &str, id: PeerId) -> (r: String)
    ensures
        r@ == part_name(prefix@, id),
{
    with_id(prefix, id.text().as_str())
}

/// The size and the rate of video.
#[derive(Clone, Copy, Debug, PartialEq, Eq, Structural)]
pub struct Shape {
    pub width: u32,
    pub height: u32,
    pub interval: FrameInterval,
}

/// The elements of a pipeline keep the names that they were given, each followed by a
/// hyphen and the identity of the pipeline.
pub proof fn parts_are_named_after_their_pipeline(names: PipelineNames, id: PeerId)
    ensures
        parts_of(names, id).filter == names.filter@ + "-"@ + id_text(id.value),
        parts_of(names, id).video_tee == names.video_tee@ + "-"@ + id_text(id.value),
        parts_of(names, id).rtp_tee == names.rtp_tee@ + "-"@ + id_text(id.value),
{
}

} // verus!
