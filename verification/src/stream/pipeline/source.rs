//! Elements that pipelines take their video from.
use vstd::prelude::*;

use crate::stream::element::{ElementSpec, ElementView, PropertyValueView};

verus! {

/// What a pipeline can take its video from.
pub trait SourcePipeline {
    spec fn source_view(&self) -> ElementView;

    /// Describes the element to be made and put into the pipeline.
    fn build_source(&self) -> (r: ElementSpec)
        ensures
            r@ == self.source_view(),
    ;
}

/// A camera that libcamera drives.
pub struct LibcameraSourcePipeline {
    pub device_path: String,
}

impl SourcePipeline for LibcameraSourcePipeline {
    open spec fn source_view(&self) -> ElementView {
        ElementView::of("libcamerasrc"@).named("source"@).text("camera-name"@, self.device_path@)
    }

    fn build_source(&self) -> (r: ElementSpec) {
        ElementSpec::of("libcamerasrc").named("source").text(
            "camera-name",
            self.device_path.as_str(),
        )
    }
}

/// A camera that libcamera drives is asked for by its path.
pub proof fn cameras_are_asked_for_by_path(source: LibcameraSourcePipeline)
    ensures
        source.source_view().factory == "libcamerasrc"@,
        source.source_view().name == Some("source"@),
        source.source_view().properties == seq![
            ("camera-name"@, PropertyValueView::Text(source.device_path@)),
        ],
        source.source_view().optional.len() == 0,
{
    assert(source.source_view().properties =~= seq![
        ("camera-name"@, PropertyValueView::Text(source.device_path@)),
    ]);
}

} // verus!
