//! Shader descriptors and the pipeline settings they ask for.
use vstd::prelude::*;
use crate::bind_group::BindGroupLayout;
use crate::layout::BufferLayout;
use crate::texture::{GpuTextureFormat, TextureFormat};

verus! {

/// Where the WGSL code of a shader comes from.
#[derive(Clone, Copy, Debug)]
pub enum ShaderSource {
    /// The engine's default mesh shader.
    Default,
    /// The engine's default flat (2D) shader.
    DefaultFlat,
    /// The given WGSL code.
    Code(&'static str),
}

/// Everything a render pipeline is built from.
#[derive(Clone, Debug)]
pub struct ShaderDescriptor {
    pub source: ShaderSource,
    pub descriptors: Vec<BufferLayout>,
    pub bind_group_layouts: Vec<BindGroupLayout>,
    pub vs_entry: &'static str,
    pub fs_entry: &'static str,
    pub backface_culling: bool,
    pub depth: bool,
    pub stripped: bool,
    pub multisample: u32,
    pub target_texture_format: TextureFormat,
}

impl Default for ShaderDescriptor {
    fn default() -> (d: ShaderDescriptor)
        ensures
            d.source == ShaderSource::Default,
            d.descriptors@.len() == 0,
            d.bind_group_layouts@.len() == 0,
            d.vs_entry@ == "vs_main"@,
            d.fs_entry@ == "fs_main"@,
            d.backface_culling,
            !d.depth,
            !d.stripped,
            d.multisample == 1,
            d.target_texture_format == TextureFormat::Bgra8U,
    {
        ShaderDescriptor {
            source: ShaderSource::Default,
            descriptors: Vec::new(),
            bind_group_layouts: Vec::new(),
            vs_entry: "vs_main",
            fs_entry: "fs_main",
            backface_culling: true,
            depth: false,
            stripped: false,
            multisample: 1,
            target_texture_format: TextureFormat::Bgra8U,
        }
    }
}

impl ShaderDescriptor {
    /// The default descriptor with the flat shader.
    pub fn default_flat() -> (d: ShaderDescriptor)
        ensures
            d.source == ShaderSource::DefaultFlat,
            d.descriptors@.len() == 0,
            d.bind_group_layouts@.len() == 0,
            d.vs_entry@ == "vs_main"@,
            d.fs_entry@ == "fs_main"@,
            d.backface_culling,
            !d.depth,
            !d.stripped,
            d.multisample == 1,
            d.target_texture_format == TextureFormat::Bgra8U,
    {
        let mut d = ShaderDescriptor::default();
        d.source = ShaderSource::DefaultFlat;
        d
    }

    /// The same descriptor with the given vertex buffer layouts.
    pub fn with_descriptors(self, descriptors: Vec<BufferLayout>) -> (d: ShaderDescriptor)
        ensures
            d == (ShaderDescriptor { descriptors, ..self }),
    {
        let mut this = self;
        this.descriptors = descriptors;
        this
    }

    /// The same descriptor with back faces culled or not.
    pub fn with_backface_culling(self, value: bool) -> (d: ShaderDescriptor)
        ensures
            d == (ShaderDescriptor { backface_culling: value, ..self }),
    {
        let mut this = self;
        this.backface_culling = value;
        this
    }

    /// The same descriptor with the given bind group layouts.
    pub fn with_bind_group_layouts(self, layouts: Vec<BindGroupLayout>) -> (d: ShaderDescriptor)
        ensures
            d == (ShaderDescriptor { bind_group_layouts: layouts, ..self }),
    {
        let mut this = self;
        this.bind_group_layouts = layouts;
        this
    }

    /// The same descriptor with depth testing on or off.
    pub fn with_depth(self, value: bool) -> (d: ShaderDescriptor)
        ensures
            d == (ShaderDescriptor { depth: value, ..self }),
    {
        let mut this = self;
        this.depth = value;
        this
    }

    /// The same descriptor with another vertex entry point.
    pub fn with_vs_entry(self, entry: &'static str) -> (d: ShaderDescriptor)
        ensures
            d == (ShaderDescriptor { vs_entry: entry, ..self }),
    {
        let mut this = self;
        this.vs_entry = entry;
        this
    }

    /// The same descriptor with another fragment entry point.
    pub fn with_fs_entry(self, entry: &'static str) -> (d: ShaderDescriptor)
        ensures
            d == (ShaderDescriptor { fs_entry: entry, ..self }),
    {
        let mut this = self;
        this.fs_entry = entry;
        this
    }

    /// The same descriptor with the given WGSL code.
    pub fn with_source(self, code: &'static str) -> (d: ShaderDescriptor)
        ensures
            d == (ShaderDescriptor { source: ShaderSource::Code(code), ..self }),
    {
        let mut this = self;
        this.source = ShaderSource::Code(code);
        this
    }

    /// The same descriptor drawing triangle strips or not.
    pub fn with_stripping(self, value: bool) -> (d: ShaderDescriptor)
        ensures
            d == (ShaderDescriptor { stripped: value, ..self }),
    {
        let mut this = self;
        this.stripped = value;
        this
    }

    /// The same descriptor with another sample count.
    pub fn with_multisample(self, value: u32) -> (d: ShaderDescriptor)
        ensures
            d == (ShaderDescriptor { multisample: value, ..self }),
    {
        let mut this = self;
        this.multisample = value;
        this
    }

    /// The pipeline settings this descriptor asks for.
    pub open spec fn spec_pipeline(&self) -> PipelineSettings {
        PipelineSettings {
            topology: if self.stripped {
                PrimitiveTopology::TriangleStrip
            } else {
                PrimitiveTopology::TriangleList
            },
            cull_back_faces: self.backface_culling,
            depth_format: if self.depth {
                Some(GpuTextureFormat::Depth32Float)
            } else {
                None
            },
            target_format: self.target_texture_format.spec_gpu_format(),
            sample_count: self.multisample,
            blend: BlendMode::Alpha,
        }
    }

    /// The pipeline settings this descriptor asks for: strips or lists of
    /// triangles, back faces culled or not, a 32-bit float depth buffer when
    /// depth is on, the GPU format of the target, the sample count, and
    /// alpha blending into the target.
    pub fn pipeline(&self) -> (p: PipelineSettings)
        ensures
            p == self.spec_pipeline(),
    {
        PipelineSettings {
            topology: if self.stripped {
                PrimitiveTopology::TriangleStrip
            } else {
                PrimitiveTopology::TriangleList
            },
            cull_back_faces: self.backface_culling,
            depth_format: if self.depth {
                Some(GpuTextureFormat::Depth32Float)
            } else {
                None
            },
            target_format: self.target_texture_format.gpu_format(),
            sample_count: self.multisample,
            blend: BlendMode::Alpha,
        }
    }
}

/// How triangles are assembled from indices.
#[derive(Clone, Copy, PartialEq, Eq, Structural, Debug)]
pub enum PrimitiveTopology {
    TriangleList,
    TriangleStrip,
}

/// The settings of a render pipeline that a descriptor decides.
#[derive(Clone, Copy, PartialEq, Eq, Structural, Debug)]
pub struct PipelineSettings {
    pub topology: PrimitiveTopology,
    pub cull_back_faces: bool,
    pub depth_format: Option<GpuTextureFormat>,
    pub target_format: GpuTextureFormat,
    pub sample_count: u32,
    pub blend: BlendMode,
}

/// How a pipeline writes its colour into the target.
#[derive(Clone, Copy, PartialEq, Eq, Structural, Debug)]
pub enum BlendMode {
    /// The source over the target, weighted by the source's alpha.
    Alpha,
    /// The source replaces the target.
    Replace,
    /// The source's colour is added to the target's; alpha goes over.
    Additive,
}

/// A descriptor's pipeline draws triangle strips exactly when it is
/// stripped, culls back faces exactly when culling is on, has a 32-bit float
/// depth buffer exactly when depth is on, samples as many times as asked,
/// blends with alpha, and renders in the GPU format of its target.
pub proof fn lemma_pipeline_follows_descriptor(d: ShaderDescriptor)
    ensures
        d.stripped <==> d.spec_pipeline().topology == PrimitiveTopology::TriangleStrip,
        !d.stripped <==> d.spec_pipeline().topology == PrimitiveTopology::TriangleList,
        d.spec_pipeline().cull_back_faces == d.backface_culling,
        d.depth <==> d.spec_pipeline().depth_format == Some(GpuTextureFormat::Depth32Float),
        !d.depth <==> d.spec_pipeline().depth_format is None,
        d.spec_pipeline().sample_count == d.multisample,
        d.spec_pipeline().blend == BlendMode::Alpha,
        d.spec_pipeline().target_format == d.target_texture_format.spec_gpu_format(),
{
}

} // verus!
