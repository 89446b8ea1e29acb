//! A stream whose pipeline is described by hand.
use vstd::prelude::*;

verus! {

/// The stream, by the description of its pipeline; what runs the pipeline is told
/// of every change of it.
pub struct VideoStreamCustomPipeline {
    pub description: String,
}

impl Default for VideoStreamCustomPipeline {
    /// A stream with nothing to run yet.
    fn default() -> (r: VideoStreamCustomPipeline)
        ensures
            r.description@ == ""@,
    {
        VideoStreamCustomPipeline { description: "".to_owned() }
    }
}

impl VideoStreamCustomPipeline {
    pub fn set_pipeline_description(&mut self, description: &str)
        ensures
            final(self).description@ == description@,
    {
        self.description = description.to_owned();
    }

    /// The description that was set last.
    pub fn pipeline(&self) -> (r: String)
        ensures
            r@ == self.description@,
    {
        self.description.clone()
    }
}

} // verus!
