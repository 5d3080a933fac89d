//! The material passes the scene layer sorts render objects into.

use vstd::prelude::*;

verus! {

#[allow(non_camel_case_types)]
#[derive(Clone, Copy, Debug, PartialEq, Eq, Structural)]
pub enum MaterialPass {
    GLTF_PBR_MAIN_COLOR,
    GLTF_PBR_OPAQUE,
    GLTF_PBR_TRANSPARENT,
}

impl Default for MaterialPass {
    fn default() -> (r: Self)
        ensures
            r is GLTF_PBR_MAIN_COLOR,
    {
        MaterialPass::GLTF_PBR_MAIN_COLOR
    }
}

} // verus!
