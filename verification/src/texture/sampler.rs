//! Sampler settings that carry no floating-point value.
use vstd::prelude::*;

verus! {

/// How coordinates outside `[0, 1]` are treated.
#[derive(Clone, Copy, PartialEq, Eq, Structural, Debug)]
pub enum SamplerAddressMode {
    Repeat,
    RepeatMirrored,
    Clamp,
}

/// How texels are filtered.
#[derive(Clone, Copy, PartialEq, Eq, Structural, Debug)]
pub enum SamplerFilterMode {
    Linear,
    Nearest,
}

/// The comparison of a depth sampler.
#[derive(Clone, Copy, PartialEq, Eq, Structural, Debug)]
pub enum SamplerCompareFunction {
    Less,
    LessEqual,
    Equal,
    GreaterEqual,
    Greater,
}

} // verus!
