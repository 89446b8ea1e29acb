//! A source given by a pipeline description of the user's own.
use vstd::prelude::*;

use crate::stream::types::{SourceView, VideoSourceType};

verus! {

pub enum VideoSourceCustomPipelineType {
    Pipeline(String),
}

pub struct VideoSourceCustomPipeline {
    pub name: String,
    pub source: VideoSourceCustomPipelineType,
}

/// A source of this kind has no control that could be read or set.
#[derive(Clone, Copy, Debug, PartialEq, Eq, Structural)]
pub struct NoControls;

impl NoControls {
    pub fn message(&self) -> (r: &'static str)
        ensures
            r@ == "Custom pipeline sources doesn't have controls."@,
    {
        "Custom pipeline sources doesn't have controls."
    }
}

/// A video format that a source offers.
pub struct Format {
    pub encode: crate::stream::types::VideoEncodeType,
}

/// A control that a source offers.
pub struct SourceControl {
    pub id: u64,
    pub name: String,
}

impl VideoSourceCustomPipeline {
    pub open spec fn description(self) -> Seq<char> {
        match self.source {
            VideoSourceCustomPipelineType::Pipeline(string) => string@,
        }
    }

    pub fn name(&self) -> (r: &String)
        ensures
            r@ == self.name@,
    {
        &self.name
    }

    /// The pipeline description.
    pub fn source_string(&self) -> (r: &str)
        ensures
            r@ == self.description(),
    {
        match &self.source {
            VideoSourceCustomPipelineType::Pipeline(string) => string.as_str(),
        }
    }

    /// No formats: the description decides what comes out.
    pub fn formats(&self) -> (r: Vec<Format>)
        ensures
            r@.len() == 0,
    {
        Vec::new()
    }

    pub fn set_control_by_name(&self, _control_name: &str, _value: i64) -> (r: Result<
        (),
        NoControls,
    >)
        ensures
            r == Err::<(), NoControls>(NoControls),
    {
        Err(NoControls)
    }

    pub fn set_control_by_id(&self, _control_id: u64, _value: i64) -> (r: Result<(), NoControls>)
        ensures
            r == Err::<(), NoControls>(NoControls),
    {
        Err(NoControls)
    }

    pub fn control_value_by_name(&self, _control_name: &str) -> (r: Result<i64, NoControls>)
        ensures
            r == Err::<i64, NoControls>(NoControls),
    {
        Err(NoControls)
    }

    pub fn control_value_by_id(&self, _control_id: u64) -> (r: Result<i64, NoControls>)
        ensures
            r == Err::<i64, NoControls>(NoControls),
    {
        Err(NoControls)
    }

    pub fn controls(&self) -> (r: Vec<SourceControl>)
        ensures
            r@.len() == 0,
    {
        Vec::new()
    }

    /// Whether the source can be used: any description is taken.
    pub fn is_valid(&self) -> (r: bool)
        ensures
            r,
    {
        match &self.source {
            VideoSourceCustomPipelineType::Pipeline(_) => true,
        }
    }

    /// The sources of this kind that can be offered: one, to be filled in.
    pub fn cameras_available() -> (r: Vec<VideoSourceType>)
        ensures
            r@.len() == 1,
            r@[0]@ == SourceView::CustomPipeline("Pipeline source"@, "Pipeline"@),
    {
        let mut r: Vec<VideoSourceType> = Vec::new();
        r.push(
            VideoSourceType::CustomPipeline(
                VideoSourceCustomPipeline {
                    name: "Pipeline source".to_owned(),
                    source: VideoSourceCustomPipelineType::Pipeline("Pipeline".to_owned()),
                },
            ),
        );
        r
    }
}

impl Clone for VideoSourceCustomPipeline {
    fn clone(&self) -> (r: VideoSourceCustomPipeline)
        ensures
            r.name@ == self.name@,
            r.description() == self.description(),
    {
        VideoSourceCustomPipeline {
            name: self.name.clone(),
            source: match &self.source {
                VideoSourceCustomPipelineType::Pipeline(
                    string,
                ) => VideoSourceCustomPipelineType::Pipeline(string.clone()),
            },
        }
    }
}

} // verus!
