//! Shader assets, as far as a resource context needs to name them.

use vstd::prelude::*;

verus! {

/// The pipeline stage that a shader runs in.
#[derive(Clone, Copy, Debug, PartialEq, Eq, Structural, Hash)]
pub enum ShaderStage {
    Vertex,
    Fragment,
    Compute,
}

/// A shader asset: its stage and its source text.
#[derive(Debug)]
pub struct Shader {
    pub stage: ShaderStage,
    pub source: String,
}

} // verus!
