//! Drawable objects: their vertex and instance types, the layouts those are
//! read with, and when an object's instance buffer is rebuilt.
//!
//! Coordinates are single-precision floats. The rules here never look into
//! them, so the vertex and instance types carry each one as its IEEE 754 bit
//! pattern (`f32::to_bits`); written out field by field, in declaration
//! order, they give the bytes the layouts below describe.
use vstd::prelude::*;
use crate::handle::BufferHandle;
use crate::layout::{attribute, VertexAttribute, VertexBufferLayout, VertexFormat, VertexStepMode};

verus! {

/// A mesh vertex: position, normal and texture coordinates.
#[derive(Clone, Copy, PartialEq, Eq, Debug)]
pub struct Vertex {
    pub position: [u32; 3],
    pub normal: [u32; 3],
    pub uv: [u32; 2],
}

impl Vertex {
    /// The layout of a mesh vertex: position and normal of three floats
    /// each, then texture coordinates of two, thirty-two bytes per vertex.
    pub fn desc() -> (layout: VertexBufferLayout)
        ensures
            layout.array_stride == 32,
            layout.step_mode == VertexStepMode::Vertex,
            layout.attributes@ == seq![
                attribute(VertexFormat::Float32x3, 0, 0),
                attribute(VertexFormat::Float32x3, 12, 1),
                attribute(VertexFormat::Float32x2, 24, 2),
            ],
    {
        let attributes = vec![
            VertexAttribute { format: VertexFormat::Float32x3, offset: 0, shader_location: 0 },
            VertexAttribute { format: VertexFormat::Float32x3, offset: 12, shader_location: 1 },
            VertexAttribute { format: VertexFormat::Float32x2, offset: 24, shader_location: 2 },
        ];
        VertexBufferLayout { array_stride: 32, step_mode: VertexStepMode::Vertex, attributes }
    }
}

/// A vertex of a flat object: position and texture coordinates.
#[derive(Clone, Copy, PartialEq, Eq, Debug)]
pub struct VertexRaw {
    pub position: [u32; 3],
    pub uv: [u32; 2],
}

impl VertexRaw {
    /// The layout of a raw vertex: a position of three floats followed by
    /// texture coordinates of two, twenty bytes per vertex.
    pub fn desc() -> (layout: VertexBufferLayout)
        ensures
            layout.array_stride == 20,
            layout.step_mode == VertexStepMode::Vertex,
            layout.attributes@ == seq![
                attribute(VertexFormat::Float32x3, 0, 0),
                attribute(VertexFormat::Float32x2, 12, 1),
            ],
    {
        let attributes = vec![
            VertexAttribute { format: VertexFormat::Float32x3, offset: 0, shader_location: 0 },
            VertexAttribute { format: VertexFormat::Float32x2, offset: 12, shader_location: 1 },
        ];
        VertexBufferLayout { array_stride: 20, step_mode: VertexStepMode::Vertex, attributes }
    }
}

/// An instance placed by a 4x4 model matrix, column after column.
#[derive(Clone, Copy, PartialEq, Eq, Debug)]
pub struct Instance {
    pub model: [[u32; 4]; 4],
}

impl Instance {
    /// The layout of an instance: the four columns of its model matrix at
    /// shader locations 5 to 8, sixty-four bytes per instance.
    pub fn desc() -> (layout: VertexBufferLayout)
        ensures
            layout.array_stride == 64,
            layout.step_mode == VertexStepMode::Instance,
            layout.attributes@ == seq![
                attribute(VertexFormat::Float32x4, 0, 5),
                attribute(VertexFormat::Float32x4, 16, 6),
                attribute(VertexFormat::Float32x4, 32, 7),
                attribute(VertexFormat::Float32x4, 48, 8),
            ],
    {
        let attributes = vec![
            VertexAttribute { format: VertexFormat::Float32x4, offset: 0, shader_location: 5 },
            VertexAttribute { format: VertexFormat::Float32x4, offset: 16, shader_location: 6 },
            VertexAttribute { format: VertexFormat::Float32x4, offset: 32, shader_location: 7 },
            VertexAttribute { format: VertexFormat::Float32x4, offset: 48, shader_location: 8 },
        ];
        VertexBufferLayout { array_stride: 64, step_mode: VertexStepMode::Instance, attributes }
    }
}

/// A 2D instance: position, scale and rotation.
#[derive(Clone, Copy, PartialEq, Eq, Debug)]
pub struct D2Instance {
    pub position: [u32; 2],
    pub scale: [u32; 2],
    pub rotation: u32,
}

impl D2Instance {
    /// The layout of a 2D instance: position and scale of two floats each,
    /// then the rotation, twenty bytes per instance.
    pub fn desc() -> (layout: VertexBufferLayout)
        ensures
            layout.array_stride == 20,
            layout.step_mode == VertexStepMode::Instance,
            layout.attributes@ == seq![
                attribute(VertexFormat::Float32x2, 0, 5),
                attribute(VertexFormat::Float32x2, 8, 6),
                attribute(VertexFormat::Float32, 16, 7),
            ],
    {
        let attributes = vec![
            VertexAttribute { format: VertexFormat::Float32x2, offset: 0, shader_location: 5 },
            VertexAttribute { format: VertexFormat::Float32x2, offset: 8, shader_location: 6 },
            VertexAttribute { format: VertexFormat::Float32, offset: 16, shader_location: 7 },
        ];
        VertexBufferLayout { array_stride: 20, step_mode: VertexStepMode::Instance, attributes }
    }
}

/// The buffers an object is drawn from.
#[derive(Clone, Copy, PartialEq, Eq, Structural, Debug)]
pub struct ObjectRenderData {
    pub vertex_buffer: BufferHandle,
    pub index_buffer: BufferHandle,
    pub instance_buffer: BufferHandle,
}

/// Something that can be drawn some number of times.
pub trait Renderable {
    /// How many instances are drawn.
    fn num_instances(&self) -> u32;
}

/// How the instances of an object reach the GPU in a frame.
#[derive(Clone, Copy, PartialEq, Eq, Structural, Debug)]
pub enum InstanceUpload {
    /// The number of instances changed: a new instance buffer is created
    /// and becomes the object's instance buffer.
    Recreate,
    /// The number is the same: the existing instance buffer is overwritten.
    Write,
}

/// How `len` instances are uploaded when `uploaded` were uploaded last.
pub open spec fn spec_upload(uploaded: nat, len: nat) -> InstanceUpload {
    if uploaded != len {
        InstanceUpload::Recreate
    } else {
        InstanceUpload::Write
    }
}

/// A mesh drawn once per instance.
pub struct Object<T> {
    pub vertices: Vec<Vertex>,
    pub indices: Vec<u32>,
    pub instances: Vec<T>,
    pub render_data: ObjectRenderData,
    /// The number of instances last uploaded.
    pub previous_instances_len: usize,
}

impl<T> Object<T> {
    /// An object whose buffers were just created from `vertices`, `indices`
    /// and `instances`.
    pub fn new(
        vertices: Vec<Vertex>,
        indices: Vec<u32>,
        instances: Vec<T>,
        render_data: ObjectRenderData,
    ) -> (o: Object<T>)
        ensures
            o.vertices@ == vertices@,
            o.indices@ == indices@,
            o.instances@ == instances@,
            o.render_data == render_data,
            o.previous_instances_len == instances@.len(),
    {
        let previous_instances_len = instances.len();
        Object { vertices, indices, instances, render_data, previous_instances_len }
    }

    /// How the instances reach the GPU this frame: a new buffer when their
    /// number changed since the last upload, an overwrite otherwise. The
    /// number is remembered; the caller makes the upload.
    pub fn update(&mut self) -> (u: InstanceUpload)
        ensures
            u == spec_upload(old(self).previous_instances_len as nat, old(self).instances@.len()),
            final(self).previous_instances_len == old(self).instances@.len(),
            final(self).vertices@ == old(self).vertices@,
            final(self).indices@ == old(self).indices@,
            final(self).instances@ == old(self).instances@,
            final(self).render_data == old(self).render_data,
    {
        let len = self.instances.len();
        if self.previous_instances_len != len {
            self.previous_instances_len = len;
            InstanceUpload::Recreate
        } else {
            InstanceUpload::Write
        }
    }
}

impl<T> Renderable for Object<T> {
    /// The number of instances last uploaded, cut to 32 bits.
    fn num_instances(&self) -> (n: u32)
        ensures
            n == self.previous_instances_len as u32,
    {
        self.previous_instances_len as u32
    }
}

/// Once an object's instances are uploaded, uploading them again without
/// adding or removing one overwrites the buffer in place.
pub proof fn lemma_upload_settles(uploaded: nat, len: nat)
    ensures
        spec_upload(uploaded, len) == InstanceUpload::Recreate <==> uploaded != len,
        spec_upload(len, len) == InstanceUpload::Write,
{
}

} // verus!
