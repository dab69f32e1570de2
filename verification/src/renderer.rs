//! The part of a renderer that the verified code talks to.
use vstd::prelude::*;
use crate::handle::BufferHandle;
use crate::types::UVec2;

verus! {

/// A renderer that can hold buffers of bytes. The engine's GPU renderer
/// implements it. Of `create_uniform_buffer` implementors are held, without
/// it being checked, to hand out the handle `uniform_buffer_for` names;
/// nothing is assumed of the other methods.
pub trait Renderer {
    /// The size of the rendering surface in pixels.
    fn size(&self) -> UVec2;

    /// The handle that a uniform buffer created now, holding `contents`,
    /// gets.
    spec fn uniform_buffer_for(&self, contents: &[u8]) -> BufferHandle;

    /// Creates a uniform buffer holding `contents` and returns its handle.
    fn create_uniform_buffer(&mut self, contents: &[u8]) -> (h: BufferHandle)
        ensures
            h == old(self).uniform_buffer_for(contents),
    ;

    /// Overwrites the start of `buffer` with `data`.
    fn write_buffer(&mut self, buffer: BufferHandle, data: &[u8]);
}

/// The size a window's surface is reconfigured to when the window reports
/// `width` by `height`: none when either is zero or the size is unchanged,
/// the new size otherwise.
pub open spec fn spec_surface_resize(current: UVec2, width: u32, height: u32) -> Option<UVec2> {
    if width == 0 || height == 0 || (current.x == width && current.y == height) {
        None
    } else {
        Some(UVec2 { x: width, y: height })
    }
}

/// Decides whether a surface of size `current` is reconfigured for a window
/// of `width` by `height` pixels, and to which size.
pub fn surface_resize(current: UVec2, width: u32, height: u32) -> (r: Option<UVec2>)
    ensures
        r == spec_surface_resize(current, width, height),
{
    if width == 0 || height == 0 {
        return None;
    }
    if current.x == width && current.y == height {
        return None;
    }
    Some(UVec2 { x: width, y: height })
}

/// A resize settles: once the surface has the size a window size asked
/// for, the same window size asks for nothing more.
pub proof fn lemma_resize_settles(current: UVec2, width: u32, height: u32)
    ensures
        spec_surface_resize(current, width, height) matches Some(n) ==> spec_surface_resize(
            n,
            width,
            height,
        ) is None,
{
}

/// The surface is reconfigured exactly when the window reports a size that
/// is not zero in either direction and differs from the surface's in width,
/// height or both, and then to exactly that size.
pub proof fn lemma_resize_when_size_changes(current: UVec2, width: u32, height: u32)
    ensures
        (width == 0 || height == 0) ==> spec_surface_resize(current, width, height) is None,
        (width != 0 && height != 0 && (width != current.x || height != current.y))
            ==> spec_surface_resize(current, width, height) == Some(UVec2 { x: width, y: height }),
        (width == current.x && height == current.y) ==> spec_surface_resize(current, width, height) is None,
{
}

} // verus!
