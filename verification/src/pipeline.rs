//! The pipeline kinds the renderer binds. Pipeline-state construction itself
//! is a collaborator of this core, not part of it; the subsystem only needs
//! to tell graphics from compute binds.

use vstd::prelude::*;

verus! {

#[derive(Clone, Copy, Debug, PartialEq, Eq, Structural)]
pub enum PipelineType {
    GRAPHICS,
    COMPUTE,
}

impl Default for PipelineType {
    fn default() -> (r: Self)
        ensures
            r is GRAPHICS,
    {
        PipelineType::GRAPHICS
    }
}

} // verus!
