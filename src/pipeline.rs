//! The graphics pipeline the recording pass binds.

use vstd::prelude::*;

use crate::release::ReleaseStep;

verus! {

#[derive(Clone, Copy, Debug, PartialEq, Eq)]
pub struct Pipeline {
    pub pipeline: u64,
    pub layout: u64,
}

impl Pipeline {
    /// The pipeline goes first, then its layout.
    pub fn cleanup(&self) -> (r: Vec<ReleaseStep>)
        ensures
            r@ == seq![ReleaseStep::DestroyPipeline(self.pipeline), ReleaseStep::DestroyPipelineLayout(self.layout)],
    {
        let mut steps: Vec<ReleaseStep> = Vec::new();
        steps.push(ReleaseStep::DestroyPipeline(self.pipeline));
        steps.push(ReleaseStep::DestroyPipelineLayout(self.layout));
        steps
    }
}

} // verus!
