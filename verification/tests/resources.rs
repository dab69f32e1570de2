use jandering_engine::bind_group::{
    BindGroup, BindGroupLayout, BindGroupLayoutDescriptorEntry, BindGroupLayoutEntry,
    BindingKind, BoundResource, GpuBindGroupEntry, GpuLayoutEntry, ResolutionBindGroup,
    SamplerType, StorageTextureAccessType, TextureBindGroup, TextureSampleType,
};
use jandering_engine::compute_pass::{ComputePassData, ComputePassTrait};
use jandering_engine::handle::{
    BindGroupHandle, BufferHandle, BufferType, ComputeShaderHandle, SamplerHandle,
    TextureHandle, UntypedBindGroupHandle,
};
use jandering_engine::object::{InstanceUpload, Object, ObjectRenderData, Renderable};
use jandering_engine::registry::{ResourceStore, ShaderStore};
use jandering_engine::renderer::{surface_resize, Renderer};
use jandering_engine::texture::TextureFormat;
use jandering_engine::types::UVec2;

struct RecordingRenderer {
    size: UVec2,
    buffers: Vec<Vec<u8>>,
}

impl Renderer for RecordingRenderer {
    fn size(&self) -> UVec2 {
        self.size
    }

    fn uniform_buffer_for(&self, _contents: &[u8]) -> BufferHandle {
        BufferHandle::uniform(self.buffers.len())
    }

    fn create_uniform_buffer(&mut self, contents: &[u8]) -> BufferHandle {
        self.buffers.push(contents.to_vec());
        BufferHandle::uniform(self.buffers.len() - 1)
    }

    fn write_buffer(&mut self, buffer: BufferHandle, data: &[u8]) {
        self.buffers[buffer.index][..data.len()].copy_from_slice(data);
    }
}

#[test]
fn store_places_and_finds() {
    let mut store: ResourceStore<&str> = ResourceStore::new();
    assert_eq!(store.len(), 0);
    assert_eq!(store.add("a"), 0);
    assert_eq!(store.add("b"), 1);
    store.place(1, "c");
    assert_eq!(store.len(), 2);
    assert_eq!(store.get(1), Some(&"c"));
    assert_eq!(store.landing_index(1), 1);
    assert_eq!(store.landing_index(7), 2);
    store.place(7, "d");
    assert_eq!(store.len(), 3);
    assert_eq!(store.get(2), Some(&"d"));
    assert_eq!(store.get(0), Some(&"a"));
    assert_eq!(store.get(3), None);
}

#[test]
fn shader_store_keeps_first_descriptor() {
    let mut store: ShaderStore<u32, &str> = ShaderStore::new();
    store.place(0, 10, "first");
    store.place(0, 11, "second");
    assert_eq!(store.len(), 1);
    assert_eq!(store.shader(0), Some(&11));
    assert_eq!(store.descriptor(0), Some(&"first"));
    assert_eq!(store.landing_index(0), 0);
    assert_eq!(store.landing_index(5), 1);
    store.place(5, 12, "third");
    assert_eq!(store.len(), 2);
    assert_eq!(store.shader(1), Some(&12));
    assert_eq!(store.descriptor(1), Some(&"third"));
    assert_eq!(store.shader(2), None);
    assert_eq!(store.descriptor(2), None);
}

struct Pass {
    data: ComputePassData,
}

impl ComputePassTrait for Pass {
    fn pass_data(&self) -> ComputePassData {
        self.data.clone()
    }

    fn get_data(&mut self) -> &mut ComputePassData {
        &mut self.data
    }

    fn dispatch(self, _x: u32, _y: u32, _z: u32) {}
}

#[test]
fn compute_pass_binds_and_unbinds() {
    let pass = Pass { data: ComputePassData::default() };
    assert_eq!(pass.data.shader(), ComputeShaderHandle(0));
    let mut pass = pass
        .set_shader(ComputeShaderHandle(3))
        .bind(0, UntypedBindGroupHandle(4))
        .bind(1, UntypedBindGroupHandle(5))
        .bind(0, UntypedBindGroupHandle(6))
        .unbind(1);
    assert_eq!(pass.pass_data().bound(0), Some(UntypedBindGroupHandle(6)));
    let data = pass.get_data();
    assert_eq!(data.shader(), ComputeShaderHandle(3));
    assert_eq!(data.bound(0), Some(UntypedBindGroupHandle(6)));
    assert_eq!(data.bound(1), None);
    data.unbind(0);
    assert_eq!(data.bound(0), None);
}

#[test]
fn handles() {
    let h: BindGroupHandle<TextureBindGroup> = BindGroupHandle::new(9);
    let copy = h;
    assert_eq!(copy.untyped(), UntypedBindGroupHandle(9));
    assert_eq!(UntypedBindGroupHandle::from(h.clone()), UntypedBindGroupHandle(9));
    let b = BufferHandle::storage(2);
    assert_eq!((b.index, b.buffer_type), (2, BufferType::Storage));
    assert_eq!(BufferHandle::uniform(1).buffer_type, BufferType::Uniform);
}

#[test]
fn descriptor_entries_drop_resources() {
    assert_eq!(
        BindGroupLayoutDescriptorEntry::from(BindGroupLayoutEntry::Data(BufferHandle::uniform(3))),
        BindGroupLayoutDescriptorEntry::Data { is_uniform: true }
    );
    assert_eq!(
        BindGroupLayoutDescriptorEntry::from(BindGroupLayoutEntry::Data(BufferHandle::storage(3))),
        BindGroupLayoutDescriptorEntry::Data { is_uniform: false }
    );
    assert_eq!(
        BindGroupLayoutDescriptorEntry::from(BindGroupLayoutEntry::Sampler {
            handle: SamplerHandle(1),
            sampler_type: SamplerType::Comparison,
        }),
        BindGroupLayoutDescriptorEntry::Sampler { sampler_type: SamplerType::Comparison }
    );
    assert_eq!(TextureSampleType::default(), TextureSampleType::Filterable);
}

fn mixed_layout() -> BindGroupLayout {
    BindGroupLayout {
        entries: vec![
            BindGroupLayoutEntry::Data(BufferHandle::uniform(4)),
            BindGroupLayoutEntry::Texture {
                handle: TextureHandle(2),
                sample_type: TextureSampleType::Depth,
            },
            BindGroupLayoutEntry::StorageTexture {
                handle: TextureHandle(3),
                access_type: StorageTextureAccessType::Write,
                format: TextureFormat::F32,
            },
            BindGroupLayoutEntry::Sampler { handle: SamplerHandle(1), sampler_type: SamplerType::Filtering },
            BindGroupLayoutEntry::Data(BufferHandle::storage(7)),
        ],
    }
}

#[test]
fn gpu_layout_entries_of_each_binding() {
    assert_eq!(
        mixed_layout().gpu_layout_entries(),
        vec![
            GpuLayoutEntry { binding: 0, kind: BindingKind::UniformBuffer },
            GpuLayoutEntry { binding: 0, kind: BindingKind::FilterableTexture },
            GpuLayoutEntry {
                binding: 0,
                kind: BindingKind::StorageTexture {
                    access_type: StorageTextureAccessType::Write,
                    format: TextureFormat::F32,
                },
            },
            GpuLayoutEntry { binding: 1, kind: BindingKind::FilteringSampler },
            GpuLayoutEntry { binding: 0, kind: BindingKind::UniformBuffer },
        ]
    );
}

#[test]
fn bind_group_entries_are_numbered_by_position() {
    assert_eq!(
        mixed_layout().bind_group_entries(),
        vec![
            GpuBindGroupEntry { binding: 0, resource: BoundResource::Buffer(BufferHandle::uniform(4)) },
            GpuBindGroupEntry { binding: 1, resource: BoundResource::TextureView(TextureHandle(2)) },
            GpuBindGroupEntry { binding: 2, resource: BoundResource::TextureView(TextureHandle(3)) },
            GpuBindGroupEntry { binding: 3, resource: BoundResource::Sampler(SamplerHandle(1)) },
            GpuBindGroupEntry { binding: 4, resource: BoundResource::Buffer(BufferHandle::storage(7)) },
        ]
    );
}

#[test]
fn data_is_written_into_the_last_buffer() {
    assert_eq!(mixed_layout().write_buffer(), BufferHandle::storage(7));
    let no_buffer = BindGroupLayout {
        entries: vec![BindGroupLayoutEntry::Sampler {
            handle: SamplerHandle(1),
            sampler_type: SamplerType::Filtering,
        }],
    };
    assert_eq!(no_buffer.write_buffer(), BufferHandle::uniform(0));
}

#[test]
fn texture_bind_group_layout() {
    let mut renderer = RecordingRenderer { size: UVec2::new(4, 4), buffers: vec![] };
    let bg = TextureBindGroup::new(&mut renderer, TextureHandle(5), SamplerHandle(6));
    assert!(bg.get_data().is_empty());
    let layout = BindGroup::get_layout(&bg, &mut renderer);
    assert_eq!(
        layout.entries,
        vec![
            BindGroupLayoutEntry::Texture {
                handle: TextureHandle(5),
                sample_type: TextureSampleType::Filterable,
            },
            BindGroupLayoutEntry::Sampler { handle: SamplerHandle(6), sampler_type: SamplerType::Filtering },
        ]
    );
    assert_eq!(TextureBindGroup::get_layout().entries.len(), 2);
    assert!(renderer.buffers.is_empty());
}

#[test]
fn resolution_bind_group_uploads_width_and_height() {
    let mut renderer = RecordingRenderer { size: UVec2::new(640, 480), buffers: vec![] };
    let mut bg = ResolutionBindGroup::new(&renderer);
    assert_eq!(bg.resolution(), UVec2::new(640, 480));
    let mut expected = 640u32.to_ne_bytes().to_vec();
    expected.extend_from_slice(&480u32.to_ne_bytes());
    assert_eq!(bg.get_data(), expected);

    assert_eq!(renderer.uniform_buffer_for(&expected), BufferHandle::uniform(0));
    let layout = bg.get_layout(&mut renderer);
    assert_eq!(layout.entries, vec![BindGroupLayoutEntry::Data(BufferHandle::uniform(0))]);
    assert_eq!(renderer.buffers, vec![expected]);

    bg.update(UVec2::new(1, 2));
    assert_eq!(bg.resolution(), UVec2::new(1, 2));
    assert_eq!(ResolutionBindGroup::with_resolution(UVec2::new(3, 4)).resolution(), UVec2::new(3, 4));
}

#[test]
fn instance_buffer_is_recreated_when_the_count_changes() {
    let render_data = ObjectRenderData {
        vertex_buffer: BufferHandle::uniform(0),
        index_buffer: BufferHandle::uniform(1),
        instance_buffer: BufferHandle::uniform(2),
    };
    let mut object: Object<u8> = Object::new(vec![], vec![0, 1, 2], vec![7, 8, 9], render_data);
    assert_eq!(object.num_instances(), 3);
    assert_eq!(object.update(), InstanceUpload::Write);
    object.instances.push(10);
    object.instances.push(11);
    assert_eq!(object.num_instances(), 3);
    assert_eq!(object.update(), InstanceUpload::Recreate);
    assert_eq!(object.previous_instances_len, 5);
    assert_eq!(object.update(), InstanceUpload::Write);
    assert_eq!(object.num_instances(), 5);
    assert_eq!(object.indices, vec![0, 1, 2]);
    assert_eq!(object.render_data, render_data);
}

#[test]
fn surface_is_resized_only_to_a_new_nonzero_size() {
    let current = UVec2::new(800, 600);
    assert_eq!(surface_resize(current, 1024, 768), Some(UVec2::new(1024, 768)));
    assert_eq!(surface_resize(current, 800, 600), None);
    assert_eq!(surface_resize(current, 0, 600), None);
    assert_eq!(surface_resize(current, 800, 0), None);
}
