//! Bind group layouts: what each binding of a bind group holds.
use vstd::prelude::*;
use crate::bytes::{all_be, all_le, spec_u32_to_be_bytes, u32s_to_bytes};
use vstd::bytes::spec_u32_to_le_bytes;
use crate::handle::{BufferHandle, BufferType, SamplerHandle, TextureHandle};
use crate::renderer::Renderer;
use crate::texture::TextureFormat;
use crate::types::UVec2;

verus! {

/// How a sampled texture is read.
#[derive(Clone, Copy, PartialEq, Eq, Structural, Debug)]
pub enum TextureSampleType {
    Filterable,
    NonFilterable,
    Depth,
}

impl Default for TextureSampleType {
    fn default() -> (t: TextureSampleType)
        ensures
            t == TextureSampleType::Filterable,
    {
        TextureSampleType::Filterable
    }
}

/// How a storage texture may be accessed.
#[derive(Clone, Copy, PartialEq, Eq, Structural, Debug)]
pub enum StorageTextureAccessType {
    Read,
    Write,
    ReadWrite,
}

/// The kind of a sampler binding.
#[derive(Clone, Copy, PartialEq, Eq, Structural, Debug)]
pub enum SamplerType {
    Filtering,
    NonFiltering,
    Comparison,
}

/// One binding of a layout, without the resources it is bound to.
#[derive(Clone, Copy, PartialEq, Eq, Structural, Debug)]
pub enum BindGroupLayoutDescriptorEntry {
    Data { is_uniform: bool },
    Texture { sample_type: TextureSampleType },
    StorageTexture { access_type: StorageTextureAccessType, format: TextureFormat },
    Sampler { sampler_type: SamplerType },
}

/// A layout without resources, as a shader declares it.
#[derive(Clone, Debug)]
pub struct BindGroupLayoutDescriptor {
    pub entries: Vec<BindGroupLayoutDescriptorEntry>,
}

/// One binding of a bind group, with the resource bound to it.
#[allow(inconsistent_fields)]
#[derive(Clone, Copy, PartialEq, Eq, Structural, Debug)]
pub enum BindGroupLayoutEntry {
    Data(BufferHandle),
    Texture { handle: TextureHandle, sample_type: TextureSampleType },
    StorageTexture {
        handle: TextureHandle,
        access_type: StorageTextureAccessType,
        format: TextureFormat,
    },
    Sampler { handle: SamplerHandle, sampler_type: SamplerType },
}

/// The bindings of a bind group, in binding order.
#[derive(Clone, Debug)]
pub struct BindGroupLayout {
    pub entries: Vec<BindGroupLayoutEntry>,
}

/// The descriptor entry of a bound entry: the same kind of binding with the
/// resource left out; a buffer is a uniform binding exactly when the buffer is
/// a uniform buffer.
pub open spec fn descriptor_entry_of(e: BindGroupLayoutEntry) -> BindGroupLayoutDescriptorEntry {
    match e {
        BindGroupLayoutEntry::Data(h) => BindGroupLayoutDescriptorEntry::Data {
            is_uniform: h.buffer_type == BufferType::Uniform,
        },
        BindGroupLayoutEntry::Texture { sample_type, .. } => BindGroupLayoutDescriptorEntry::Texture {
            sample_type,
        },
        BindGroupLayoutEntry::StorageTexture { access_type, format, .. } => {
            BindGroupLayoutDescriptorEntry::StorageTexture { access_type, format }
        },
        BindGroupLayoutEntry::Sampler { sampler_type, .. } => BindGroupLayoutDescriptorEntry::Sampler {
            sampler_type,
        },
    }
}

impl From<BindGroupLayoutEntry> for BindGroupLayoutDescriptorEntry {
    fn from(val: BindGroupLayoutEntry) -> (d: BindGroupLayoutDescriptorEntry) {
        match val {
            BindGroupLayoutEntry::Data(buffer_handle) => BindGroupLayoutDescriptorEntry::Data {
                is_uniform: match buffer_handle.buffer_type {
                    BufferType::Uniform => true,
                    BufferType::Storage => false,
                },
            },
            BindGroupLayoutEntry::Texture { sample_type, .. } => {
                BindGroupLayoutDescriptorEntry::Texture { sample_type }
            },
            BindGroupLayoutEntry::StorageTexture { access_type, format, .. } => {
                BindGroupLayoutDescriptorEntry::StorageTexture { access_type, format }
            },
            BindGroupLayoutEntry::Sampler { sampler_type, .. } => {
                BindGroupLayoutDescriptorEntry::Sampler { sampler_type }
            },
        }
    }
}

impl vstd::std_specs::convert::FromSpecImpl<BindGroupLayoutEntry> for BindGroupLayoutDescriptorEntry {
    open spec fn obeys_from_spec() -> bool {
        true
    }

    open spec fn from_spec(v: BindGroupLayoutEntry) -> BindGroupLayoutDescriptorEntry {
        descriptor_entry_of(v)
    }
}

/// What a binding of a GPU bind group layout holds.
#[derive(Clone, Copy, PartialEq, Eq, Structural, Debug)]
pub enum BindingKind {
    /// A uniform buffer.
    UniformBuffer,
    /// A filterable 2D float texture, not multisampled.
    FilterableTexture,
    /// A storage texture.
    StorageTexture { access_type: StorageTextureAccessType, format: TextureFormat },
    /// A filtering sampler.
    FilteringSampler,
}

/// One entry of a GPU bind group layout, visible to vertex and fragment
/// shaders.
#[derive(Clone, Copy, PartialEq, Eq, Structural, Debug)]
pub struct GpuLayoutEntry {
    pub binding: u32,
    pub kind: BindingKind,
}

/// The GPU layout entry of a binding. Every buffer is laid out as a uniform
/// buffer and every texture as a filterable one, and samplers as filtering
/// samplers; samplers are declared at binding 1 and everything else at
/// binding 0, as the engine's two-entry texture bind groups expect.
pub open spec fn spec_gpu_layout_entry(e: BindGroupLayoutEntry) -> GpuLayoutEntry {
    match e {
        BindGroupLayoutEntry::Data(_) => GpuLayoutEntry { binding: 0, kind: BindingKind::UniformBuffer },
        BindGroupLayoutEntry::Texture { .. } => GpuLayoutEntry {
            binding: 0,
            kind: BindingKind::FilterableTexture,
        },
        BindGroupLayoutEntry::StorageTexture { access_type, format, .. } => GpuLayoutEntry {
            binding: 0,
            kind: BindingKind::StorageTexture { access_type, format },
        },
        BindGroupLayoutEntry::Sampler { .. } => GpuLayoutEntry {
            binding: 1,
            kind: BindingKind::FilteringSampler,
        },
    }
}

/// A resource bound in a GPU bind group.
#[derive(Clone, Copy, PartialEq, Eq, Structural, Debug)]
pub enum BoundResource {
    Buffer(BufferHandle),
    TextureView(TextureHandle),
    Sampler(SamplerHandle),
}

/// One entry of a GPU bind group.
#[derive(Clone, Copy, PartialEq, Eq, Structural, Debug)]
pub struct GpuBindGroupEntry {
    pub binding: u32,
    pub resource: BoundResource,
}

/// The entry of a GPU bind group for the `i`-th binding: bound at binding
/// `i`, to the binding's buffer, texture view or sampler.
pub open spec fn spec_bind_group_entry(e: BindGroupLayoutEntry, i: int) -> GpuBindGroupEntry {
    GpuBindGroupEntry {
        binding: i as u32,
        resource: match e {
            BindGroupLayoutEntry::Data(h) => BoundResource::Buffer(h),
            BindGroupLayoutEntry::Texture { handle, .. } => BoundResource::TextureView(handle),
            BindGroupLayoutEntry::StorageTexture { handle, .. } => BoundResource::TextureView(handle),
            BindGroupLayoutEntry::Sampler { handle, .. } => BoundResource::Sampler(handle),
        },
    }
}

/// The buffer written when a bind group's data is updated: that of the last
/// buffer binding among the first `n` entries, or uniform buffer 0 when there
/// is none.
pub open spec fn spec_write_buffer(entries: Seq<BindGroupLayoutEntry>, n: int) -> BufferHandle
    decreases n,
{
    if n <= 0 {
        BufferHandle { index: 0, buffer_type: BufferType::Uniform }
    } else {
        match entries[n - 1] {
            BindGroupLayoutEntry::Data(h) => h,
            _ => spec_write_buffer(entries, n - 1),
        }
    }
}

impl BindGroupLayoutEntry {
    /// The GPU layout entry of this binding.
    pub fn gpu_layout_entry(&self) -> (g: GpuLayoutEntry)
        ensures
            g == spec_gpu_layout_entry(*self),
    {
        match self {
            BindGroupLayoutEntry::Data(_) => GpuLayoutEntry { binding: 0, kind: BindingKind::UniformBuffer },
            BindGroupLayoutEntry::Texture { .. } => GpuLayoutEntry {
                binding: 0,
                kind: BindingKind::FilterableTexture,
            },
            BindGroupLayoutEntry::StorageTexture { access_type, format, .. } => GpuLayoutEntry {
                binding: 0,
                kind: BindingKind::StorageTexture { access_type: *access_type, format: *format },
            },
            BindGroupLayoutEntry::Sampler { .. } => GpuLayoutEntry {
                binding: 1,
                kind: BindingKind::FilteringSampler,
            },
        }
    }
}

impl BindGroupLayout {
    /// The entries of the GPU layout of this bind group, one per binding.
    pub fn gpu_layout_entries(&self) -> (r: Vec<GpuLayoutEntry>)
        ensures
            r@.len() == self.entries@.len(),
            forall|i: int| 0 <= i < r@.len() ==> #[trigger] r@[i] == spec_gpu_layout_entry(self.entries@[i]),
    {
        let mut r: Vec<GpuLayoutEntry> = Vec::new();
        let mut i: usize = 0;
        while i < self.entries.len()
            invariant
                i <= self.entries@.len(),
                r@.len() == i,
                forall|j: int| 0 <= j < i ==> #[trigger] r@[j] == spec_gpu_layout_entry(self.entries@[j]),
            decreases self.entries@.len() - i,
        {
            r.push(self.entries[i].gpu_layout_entry());
            i = i + 1;
        }
        r
    }

    /// The entries of a GPU bind group for this layout, one per binding, in
    /// order; bindings are numbered by position, cut to 32 bits.
    pub fn bind_group_entries(&self) -> (r: Vec<GpuBindGroupEntry>)
        ensures
            r@.len() == self.entries@.len(),
            forall|i: int| 0 <= i < r@.len() ==> #[trigger] r@[i] == spec_bind_group_entry(self.entries@[i], i),
    {
        let mut r: Vec<GpuBindGroupEntry> = Vec::new();
        let mut i: usize = 0;
        while i < self.entries.len()
            invariant
                i <= self.entries@.len(),
                r@.len() == i,
                forall|j: int| 0 <= j < i ==> #[trigger] r@[j] == spec_bind_group_entry(self.entries@[j], j),
            decreases self.entries@.len() - i,
        {
            let resource = match &self.entries[i] {
                BindGroupLayoutEntry::Data(h) => BoundResource::Buffer(*h),
                BindGroupLayoutEntry::Texture { handle, .. } => BoundResource::TextureView(*handle),
                BindGroupLayoutEntry::StorageTexture { handle, .. } => BoundResource::TextureView(*handle),
                BindGroupLayoutEntry::Sampler { handle, .. } => BoundResource::Sampler(*handle),
            };
            r.push(GpuBindGroupEntry { binding: #[verifier::truncate] (i as u32), resource });
            i = i + 1;
        }
        r
    }

    /// The buffer a bind group with this layout writes its data into: that
    /// of its last buffer binding, or uniform buffer 0 when it has none.
    pub fn write_buffer(&self) -> (h: BufferHandle)
        ensures
            h == spec_write_buffer(self.entries@, self.entries@.len() as int),
    {
        let mut handle = BufferHandle::uniform(0);
        let mut i: usize = 0;
        while i < self.entries.len()
            invariant
                i <= self.entries@.len(),
                handle == spec_write_buffer(self.entries@, i as int),
            decreases self.entries@.len() - i,
        {
            match &self.entries[i] {
                BindGroupLayoutEntry::Data(h) => {
                    handle = *h;
                },
                _ => {},
            }
            i = i + 1;
        }
        handle
    }
}

/// A bind group: the bytes it uploads and the bindings it is made of.
pub trait BindGroup {
    /// The bytes of its uniform data; empty when it has none.
    fn get_data(&self) -> Vec<u8>;

    /// Its bindings. Buffers it needs are created in `renderer`.
    fn get_layout<R: Renderer>(&self, renderer: &mut R) -> BindGroupLayout;
}

/// A texture with the sampler it is read through.
#[derive(Clone, Copy, PartialEq, Eq, Structural, Debug)]
pub struct TextureBindGroup {
    pub texture_handle: TextureHandle,
    pub sampler_handle: SamplerHandle,
}

/// The bindings of a texture bind group: the texture, filterable, then its
/// sampler, filtering.
pub open spec fn texture_layout_entries(texture: TextureHandle, sampler: SamplerHandle) -> Seq<BindGroupLayoutEntry> {
    seq![
        BindGroupLayoutEntry::Texture { handle: texture, sample_type: TextureSampleType::Filterable },
        BindGroupLayoutEntry::Sampler { handle: sampler, sampler_type: SamplerType::Filtering },
    ]
}

impl TextureBindGroup {
    /// The bind group reading `texture_handle` through `sampler_handle`.
    pub fn new<R: Renderer>(_renderer: &mut R, texture_handle: TextureHandle, sampler_handle: SamplerHandle) -> (b: TextureBindGroup)
        ensures
            b.texture_handle == texture_handle,
            b.sampler_handle == sampler_handle,
    {
        TextureBindGroup { texture_handle, sampler_handle }
    }

    /// The bindings any texture bind group has, with texture 0 and sampler 0
    /// standing for its resources, as shaders are declared with.
    pub fn get_layout() -> (l: BindGroupLayout)
        ensures
            l.entries@ == texture_layout_entries(TextureHandle(0), SamplerHandle(0)),
    {
        BindGroupLayout {
            entries: vec![
                BindGroupLayoutEntry::Texture {
                    handle: TextureHandle(0),
                    sample_type: TextureSampleType::Filterable,
                },
                BindGroupLayoutEntry::Sampler { handle: SamplerHandle(0), sampler_type: SamplerType::Filtering },
            ],
        }
    }
}

impl BindGroup for TextureBindGroup {
    fn get_data(&self) -> (d: Vec<u8>)
        ensures
            d@.len() == 0,
    {
        Vec::new()
    }

    fn get_layout<R: Renderer>(&self, _renderer: &mut R) -> (l: BindGroupLayout)
        ensures
            l.entries@ == texture_layout_entries(self.texture_handle, self.sampler_handle),
    {
        BindGroupLayout {
            entries: vec![
                BindGroupLayoutEntry::Texture {
                    handle: self.texture_handle,
                    sample_type: TextureSampleType::Filterable,
                },
                BindGroupLayoutEntry::Sampler { handle: self.sampler_handle, sampler_type: SamplerType::Filtering },
            ],
        }
    }
}

/// The bytes of a resolution, width then height, each little-endian.
pub open spec fn resolution_le_bytes(r: UVec2) -> Seq<u8> {
    spec_u32_to_le_bytes(r.x) + spec_u32_to_le_bytes(r.y)
}

/// The bytes of a resolution, width then height, each big-endian.
pub open spec fn resolution_be_bytes(r: UVec2) -> Seq<u8> {
    spec_u32_to_be_bytes(r.x) + spec_u32_to_be_bytes(r.y)
}

/// The resolution of the rendering surface, as a uniform.
pub struct ResolutionBindGroup {
    resolution: [u32; 2],
}

impl ResolutionBindGroup {
    /// The resolution held, width then height.
    pub closed spec fn spec_resolution(self) -> UVec2 {
        UVec2 { x: self.resolution@[0], y: self.resolution@[1] }
    }

    /// A bind group holding the renderer's current size: the width and
    /// height that its `size` gave.
    pub fn new<R: Renderer>(renderer: &R) -> (b: ResolutionBindGroup)
        ensures
            call_ensures(R::size, (renderer,), b.spec_resolution()),
    {
        let size = renderer.size();
        ResolutionBindGroup { resolution: [size.x, size.y] }
    }

    /// A bind group holding `resolution`.
    pub fn with_resolution(resolution: UVec2) -> (b: ResolutionBindGroup)
        ensures
            b.spec_resolution() == resolution,
    {
        ResolutionBindGroup { resolution: [resolution.x, resolution.y] }
    }

    /// Holds `resolution` from now on.
    pub fn update(&mut self, resolution: UVec2)
        ensures
            final(self).spec_resolution() == resolution,
    {
        self.resolution = [resolution.x, resolution.y];
    }

    /// The resolution held.
    pub fn resolution(&self) -> (r: UVec2)
        ensures
            r == self.spec_resolution(),
    {
        UVec2 { x: self.resolution[0], y: self.resolution[1] }
    }
}

impl BindGroup for ResolutionBindGroup {
    /// The width and height, four bytes each, both in the machine's byte
    /// order.
    fn get_data(&self) -> (d: Vec<u8>)
        ensures
            d@ == resolution_le_bytes(self.spec_resolution()) || d@ == resolution_be_bytes(
                self.spec_resolution(),
            ),
    {
        let d = u32s_to_bytes(&self.resolution);
        proof {
            vstd::bytes::lemma_auto_spec_u32_to_from_le_bytes();
            let values = self.resolution@;
            let r = self.spec_resolution();
            if all_le(values, d@) {
                assert(d@.subrange(4 * 0int, 4 * 0int + 4) == spec_u32_to_le_bytes(values[0]));
                assert(d@.subrange(4 * 1int, 4 * 1int + 4) == spec_u32_to_le_bytes(values[1]));
                assert(d@ =~= d@.subrange(0, 4) + d@.subrange(4, 8));
                assert(d@ == resolution_le_bytes(r));
            } else {
                assert(d@.subrange(4 * 0int, 4 * 0int + 4) == spec_u32_to_be_bytes(values[0]));
                assert(d@.subrange(4 * 1int, 4 * 1int + 4) == spec_u32_to_be_bytes(values[1]));
                assert(d@ =~= d@.subrange(0, 4) + d@.subrange(4, 8));
                assert(d@ == resolution_be_bytes(r));
            }
        }
        d
    }

    /// One uniform buffer binding, for a buffer the renderer creates with
    /// the data.
    fn get_layout<R: Renderer>(&self, renderer: &mut R) -> (l: BindGroupLayout)
        ensures
            exists|c: &[u8]|
                #![trigger old(renderer).uniform_buffer_for(c)]
                (c@ == resolution_le_bytes(self.spec_resolution()) || c@ == resolution_be_bytes(
                    self.spec_resolution(),
                )) && l.entries@ == seq![
                    BindGroupLayoutEntry::Data(old(renderer).uniform_buffer_for(c)),
                ],
    {
        let data = self.get_data();
        let contents = data.as_slice();
        let buffer_handle = renderer.create_uniform_buffer(contents);
        let l = BindGroupLayout { entries: vec![BindGroupLayoutEntry::Data(buffer_handle)] };
        assert(l.entries@ == seq![BindGroupLayoutEntry::Data(old(renderer).uniform_buffer_for(contents))]);
        l
    }
}

/// A bind group's data goes into its last buffer binding: adding a buffer
/// binding makes it the written buffer, adding any other binding leaves the
/// written buffer as it was, and with no buffer binding uniform buffer 0 is
/// written.
pub proof fn lemma_last_buffer_written(entries: Seq<BindGroupLayoutEntry>, e: BindGroupLayoutEntry)
    ensures
        e matches BindGroupLayoutEntry::Data(h) ==> spec_write_buffer(
            entries.push(e),
            entries.len() + 1int,
        ) == h,
        !(e is Data) ==> spec_write_buffer(entries.push(e), entries.len() + 1int) == spec_write_buffer(
            entries,
            entries.len() as int,
        ),
        spec_write_buffer(Seq::<BindGroupLayoutEntry>::empty(), 0) == (BufferHandle {
            index: 0,
            buffer_type: BufferType::Uniform,
        }),
{
    lemma_write_buffer_prefix(entries, e, entries.len() as int);
}

proof fn lemma_write_buffer_prefix(entries: Seq<BindGroupLayoutEntry>, e: BindGroupLayoutEntry, n: int)
    requires
        0 <= n <= entries.len(),
    ensures
        spec_write_buffer(entries.push(e), n) == spec_write_buffer(entries, n),
    decreases n,
{
    if n > 0 {
        lemma_write_buffer_prefix(entries, e, n - 1);
        assert(entries.push(e)[n - 1] == entries[n - 1]);
    }
}

/// Samplers are laid out at binding 1 as filtering samplers; buffers,
/// textures and storage textures at binding 0, as uniform buffers,
/// filterable textures and storage textures of their own access and format.
pub proof fn lemma_layout_entry_kinds(e: BindGroupLayoutEntry)
    ensures
        e is Sampler <==> spec_gpu_layout_entry(e).binding == 1,
        e is Sampler ==> spec_gpu_layout_entry(e).kind == BindingKind::FilteringSampler,
        e is Data ==> spec_gpu_layout_entry(e).kind == BindingKind::UniformBuffer,
        e is Texture ==> spec_gpu_layout_entry(e).kind == BindingKind::FilterableTexture,
        e matches BindGroupLayoutEntry::StorageTexture { access_type, format, .. } ==> spec_gpu_layout_entry(
            e,
        ).kind == (BindingKind::StorageTexture { access_type, format }),
{
}

} // verus!
