//! Handles: small integer indices by which the renderer finds its resources.
use core::marker::PhantomData;
use vstd::prelude::*;

verus! {

/// What a buffer is bound as.
#[derive(Clone, Copy, PartialEq, Eq, Structural, Debug)]
pub enum BufferType {
    Uniform,
    Storage,
}

/// Index of a GPU buffer, with the way it is bound.
#[derive(Clone, Copy, PartialEq, Eq, Structural, Debug)]
pub struct BufferHandle {
    pub index: usize,
    pub buffer_type: BufferType,
}

impl BufferHandle {
    /// A handle to the uniform buffer at `index`.
    pub fn uniform(index: usize) -> (h: BufferHandle)
        ensures
            h.index == index,
            h.buffer_type == BufferType::Uniform,
    {
        BufferHandle { index, buffer_type: BufferType::Uniform }
    }

    /// A handle to the storage buffer at `index`.
    pub fn storage(index: usize) -> (h: BufferHandle)
        ensures
            h.index == index,
            h.buffer_type == BufferType::Storage,
    {
        BufferHandle { index, buffer_type: BufferType::Storage }
    }
}

/// Index of a texture.
#[derive(Clone, Copy, PartialEq, Eq, Structural, Debug)]
pub struct TextureHandle(pub usize);

/// Index of a sampler.
#[derive(Clone, Copy, PartialEq, Eq, Structural, Debug)]
pub struct SamplerHandle(pub usize);

/// Index of a render shader.
#[derive(Clone, Copy, PartialEq, Eq, Structural, Debug)]
pub struct ShaderHandle(pub usize);

/// Index of a compute shader.
#[derive(Clone, Copy, PartialEq, Eq, Structural, Debug)]
pub struct ComputeShaderHandle(pub usize);

/// Index of a bind group, whatever its type.
#[derive(Clone, Copy, PartialEq, Eq, Structural, Debug)]
pub struct UntypedBindGroupHandle(pub usize);

/// Index of a bind group that is known to hold a `T`.
pub struct BindGroupHandle<T>(pub usize, pub PhantomData<T>);

impl<T> BindGroupHandle<T> {
    /// The handle to the bind group at `index`.
    pub fn new(index: usize) -> (h: BindGroupHandle<T>)
        ensures
            h.0 == index,
    {
        BindGroupHandle(index, PhantomData)
    }

    /// The same index, with the type forgotten.
    pub fn untyped(&self) -> (h: UntypedBindGroupHandle)
        ensures
            h.0 == self.0,
    {
        UntypedBindGroupHandle(self.0)
    }
}

impl<T> Clone for BindGroupHandle<T> {
    fn clone(&self) -> (h: Self)
        ensures
            h.0 == self.0,
    {
        BindGroupHandle(self.0, PhantomData)
    }
}

impl<T> Copy for BindGroupHandle<T> {
}

impl<T> From<BindGroupHandle<T>> for UntypedBindGroupHandle {
    fn from(value: BindGroupHandle<T>) -> (h: UntypedBindGroupHandle) {
        UntypedBindGroupHandle(value.0)
    }
}

impl<T> vstd::std_specs::convert::FromSpecImpl<BindGroupHandle<T>> for UntypedBindGroupHandle {
    open spec fn obeys_from_spec() -> bool {
        true
    }

    open spec fn from_spec(v: BindGroupHandle<T>) -> UntypedBindGroupHandle {
        UntypedBindGroupHandle(v.0)
    }
}

} // verus!
