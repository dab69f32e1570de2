use jandering_engine::billboard::BillboardInstance;
use jandering_engine::game::tiles::TileInstance;
use jandering_engine::layout::{
    get_buffer_attributes, get_buffer_layout, BufferLayout, BufferLayoutEntry,
    BufferLayoutStepMode, VertexAttribute, VertexFormat, VertexStepMode,
};
use jandering_engine::object::{D2Instance, Instance, Vertex, VertexRaw};

fn attr(format: VertexFormat, offset: u64, shader_location: u32) -> VertexAttribute {
    VertexAttribute { format, offset, shader_location }
}

#[test]
fn attributes_follow_entry_sizes() {
    let layout = BufferLayout {
        step_mode: BufferLayoutStepMode::Vertex,
        entries: vec![
            BufferLayoutEntry { size: 3 },
            BufferLayoutEntry { size: 2 },
            BufferLayoutEntry { size: 1 },
            BufferLayoutEntry { size: 4 },
        ],
    };
    let attributes = get_buffer_attributes(&layout);
    assert_eq!(
        attributes,
        vec![
            attr(VertexFormat::Float32x3, 0, 0),
            attr(VertexFormat::Float32x2, 3, 1),
            attr(VertexFormat::Float32, 5, 2),
            attr(VertexFormat::Float32x4, 6, 3),
        ]
    );
}

#[test]
fn attributes_of_empty_layout() {
    let layout = BufferLayout { step_mode: BufferLayoutStepMode::Instance, entries: vec![] };
    assert!(get_buffer_attributes(&layout).is_empty());
}

#[test]
fn buffer_layout_stride_ends_at_last_attribute() {
    let attributes = vec![
        attr(VertexFormat::Float32x3, 0, 0),
        attr(VertexFormat::Float32x2, 12, 1),
    ];
    let layout = get_buffer_layout(BufferLayoutStepMode::Instance, &attributes);
    assert_eq!(layout.array_stride, 20);
    assert_eq!(layout.step_mode, VertexStepMode::Instance);
    assert_eq!(layout.attributes, attributes);

    let single = vec![attr(VertexFormat::Float32x4, 48, 8)];
    let layout = get_buffer_layout(BufferLayoutStepMode::Vertex, &single);
    assert_eq!(layout.array_stride, 64);
    assert_eq!(layout.step_mode, VertexStepMode::Vertex);
}

#[test]
fn fixed_vertex_layouts() {
    let raw = VertexRaw::desc();
    assert_eq!(raw.array_stride, 20);
    assert_eq!(raw.step_mode, VertexStepMode::Vertex);
    assert_eq!(
        raw.attributes,
        vec![attr(VertexFormat::Float32x3, 0, 0), attr(VertexFormat::Float32x2, 12, 1)]
    );

    let mesh = Vertex::desc();
    assert_eq!(mesh.array_stride, 32);
    assert_eq!(
        mesh.attributes,
        vec![
            attr(VertexFormat::Float32x3, 0, 0),
            attr(VertexFormat::Float32x3, 12, 1),
            attr(VertexFormat::Float32x2, 24, 2),
        ]
    );
}

#[test]
fn fixed_instance_layouts() {
    let model = Instance::desc();
    assert_eq!(model.array_stride, 64);
    assert_eq!(model.step_mode, VertexStepMode::Instance);
    assert_eq!(model.attributes.len(), 4);
    assert_eq!(model.attributes[3], attr(VertexFormat::Float32x4, 48, 8));

    let d2 = D2Instance::desc();
    assert_eq!(d2.array_stride, 20);
    assert_eq!(
        d2.attributes,
        vec![
            attr(VertexFormat::Float32x2, 0, 5),
            attr(VertexFormat::Float32x2, 8, 6),
            attr(VertexFormat::Float32, 16, 7),
        ]
    );

    let billboard = BillboardInstance::desc();
    assert_eq!(billboard.array_stride, 16);
    assert_eq!(
        billboard.attributes,
        vec![attr(VertexFormat::Float32x3, 0, 5), attr(VertexFormat::Float32, 12, 6)]
    );

    let tile = TileInstance::desc();
    assert_eq!(tile.array_stride, 12);
    assert_eq!(
        tile.attributes,
        vec![attr(VertexFormat::Float32x2, 0, 5), attr(VertexFormat::Uint32, 8, 6)]
    );
}

#[test]
fn vertex_types_match_their_strides() {
    assert_eq!(std::mem::size_of::<Vertex>() as u64, Vertex::desc().array_stride);
    assert_eq!(std::mem::size_of::<VertexRaw>() as u64, VertexRaw::desc().array_stride);
    assert_eq!(std::mem::size_of::<Instance>() as u64, Instance::desc().array_stride);
    assert_eq!(std::mem::size_of::<D2Instance>() as u64, D2Instance::desc().array_stride);
    assert_eq!(
        std::mem::size_of::<BillboardInstance>() as u64,
        BillboardInstance::desc().array_stride
    );
    assert_eq!(std::mem::size_of::<TileInstance>() as u64, TileInstance::desc().array_stride);
}
