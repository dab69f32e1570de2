//! Bits of `TextureDescriptor::usage`: what a texture may be used for.
use vstd::prelude::*;

verus! {

/// No use at all.
pub const NONE: u32 = 0u32;

/// The texture may be bound in a bind group and sampled.
pub const BIND: u32 = 1u32;

/// The texture may be the source of a copy.
pub const COPY_SRC: u32 = 2u32;

/// The texture may be the destination of a copy or an upload.
pub const COPY_TARGET: u32 = 4u32;

/// The texture may be rendered into.
pub const TARGET: u32 = 8u32;

} // verus!
