//! Billboards: camera-facing quads drawn once per instance.
use vstd::prelude::*;
use crate::layout::{attribute, VertexAttribute, VertexBufferLayout, VertexFormat, VertexStepMode};

verus! {

/// One billboard: its position and its size, each float carried as its bit
/// pattern.
#[derive(Clone, Copy, PartialEq, Eq, Debug)]
pub struct BillboardInstance {
    pub position: [u32; 3],
    pub size: u32,
}

impl BillboardInstance {
    /// The layout of a billboard instance: a position of three floats and a
    /// size, sixteen bytes per instance.
    pub fn desc() -> (layout: VertexBufferLayout)
        ensures
            layout.array_stride == 16,
            layout.step_mode == VertexStepMode::Instance,
            layout.attributes@ == seq![
                attribute(VertexFormat::Float32x3, 0, 5),
                attribute(VertexFormat::Float32, 12, 6),
            ],
    {
        let attributes = vec![
            VertexAttribute { format: VertexFormat::Float32x3, offset: 0, shader_location: 5 },
            VertexAttribute { format: VertexFormat::Float32, offset: 12, shader_location: 6 },
        ];
        VertexBufferLayout { array_stride: 16, step_mode: VertexStepMode::Instance, attributes }
    }
}

} // verus!
