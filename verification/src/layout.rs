//! Vertex buffer layouts: how the attributes of vertices and instances are
//! laid out in their buffers.
use vstd::prelude::*;

verus! {

/// The format of one vertex attribute.
#[derive(Clone, Copy, PartialEq, Eq, Structural, Debug)]
pub enum VertexFormat {
    Float32,
    Float32x2,
    Float32x3,
    Float32x4,
    Uint32,
}

/// Whether a buffer advances per vertex or per instance.
#[derive(Clone, Copy, PartialEq, Eq, Structural, Debug)]
pub enum VertexStepMode {
    Vertex,
    Instance,
}

/// One attribute: its format, its byte offset in an element, and the shader
/// location it is read at.
#[derive(Clone, Copy, PartialEq, Eq, Structural, Debug)]
pub struct VertexAttribute {
    pub format: VertexFormat,
    pub offset: u64,
    pub shader_location: u32,
}

/// The layout of one vertex buffer.
#[derive(Clone, Debug)]
pub struct VertexBufferLayout {
    pub array_stride: u64,
    pub step_mode: VertexStepMode,
    pub attributes: Vec<VertexAttribute>,
}

/// Whether a described buffer advances per vertex or per instance.
#[derive(Clone, Copy, PartialEq, Eq, Structural, Debug)]
pub enum BufferLayoutStepMode {
    Vertex,
    Instance,
}

/// One described attribute: the number of 32-bit floats it holds.
#[derive(Clone, Copy, PartialEq, Eq, Structural, Debug)]
pub struct BufferLayoutEntry {
    pub size: u64,
}

/// A vertex buffer described by the sizes of its attributes.
#[derive(Clone, Debug)]
pub struct BufferLayout {
    pub step_mode: BufferLayoutStepMode,
    pub entries: Vec<BufferLayoutEntry>,
}

pub open spec fn attribute(format: VertexFormat, offset: u64, shader_location: u32) -> VertexAttribute {
    VertexAttribute { format, offset, shader_location }
}

/// The float format of an attribute of `size` floats.
pub open spec fn float_format(size: u64) -> VertexFormat {
    if size == 1 {
        VertexFormat::Float32
    } else if size == 2 {
        VertexFormat::Float32x2
    } else if size == 3 {
        VertexFormat::Float32x3
    } else {
        VertexFormat::Float32x4
    }
}

/// The number of 32-bit components of a float format.
pub open spec fn components(format: VertexFormat) -> u64 {
    match format {
        VertexFormat::Float32 => 1,
        VertexFormat::Float32x2 => 2,
        VertexFormat::Float32x3 => 3,
        VertexFormat::Float32x4 => 4,
        VertexFormat::Uint32 => 1,
    }
}

/// The sum of the sizes of the first `n` entries.
pub open spec fn size_prefix(entries: Seq<BufferLayoutEntry>, n: int) -> int
    decreases n,
{
    if n <= 0 {
        0
    } else {
        size_prefix(entries, n - 1) + entries[n - 1].size
    }
}

proof fn lemma_size_prefix_monotone(entries: Seq<BufferLayoutEntry>, i: int, j: int)
    requires
        0 <= i <= j <= entries.len(),
    ensures
        size_prefix(entries, i) <= size_prefix(entries, j),
    decreases j - i,
{
    if i < j {
        lemma_size_prefix_monotone(entries, i, j - 1);
    }
}

/// The attributes of a described buffer: one for each entry, in order, at
/// shader locations 0, 1, 2, ..., each with the float format of its size and
/// with an offset that is the sum of the sizes of the entries before it.
pub open spec fn spec_buffer_attributes(layout: BufferLayout, i: int) -> VertexAttribute {
    attribute(
        float_format(layout.entries@[i].size),
        size_prefix(layout.entries@, i) as u64,
        i as u32,
    )
}

/// The attributes of a described buffer. Each entry holds one to four
/// floats, and the sizes add up to no more than `u64::MAX`; shader locations
/// are cut to 32 bits.
pub fn get_buffer_attributes(layout: &BufferLayout) -> (attributes: Vec<VertexAttribute>)
    requires
        forall|i: int|
            0 <= i < layout.entries@.len() ==> 1 <= #[trigger] layout.entries@[i].size <= 4,
        size_prefix(layout.entries@, layout.entries@.len() as int) <= u64::MAX,
    ensures
        attributes@.len() == layout.entries@.len(),
        forall|i: int|
            0 <= i < attributes@.len() ==> #[trigger] attributes@[i] == spec_buffer_attributes(
                *layout,
                i,
            ),
{
    let mut entries: Vec<VertexAttribute> = Vec::new();
    let mut offset: u64 = 0;
    let n = layout.entries.len();
    let mut i: usize = 0;
    while i < n
        invariant
            n == layout.entries@.len(),
            i <= n,
            entries@.len() == i,
            offset == size_prefix(layout.entries@, i as int),
            forall|j: int| 0 <= j < layout.entries@.len() ==> 1 <= #[trigger] layout.entries@[j].size <= 4,
            size_prefix(layout.entries@, n as int) <= u64::MAX,
            forall|j: int|
                0 <= j < i ==> #[trigger] entries@[j] == spec_buffer_attributes(*layout, j),
        decreases n - i,
    {
        let entry = &layout.entries[i];
        let format = if entry.size == 1 {
            VertexFormat::Float32
        } else if entry.size == 2 {
            VertexFormat::Float32x2
        } else if entry.size == 3 {
            VertexFormat::Float32x3
        } else {
            VertexFormat::Float32x4
        };
        entries.push(VertexAttribute { format, offset, shader_location: #[verifier::truncate] (i as u32) });
        proof {
            lemma_size_prefix_monotone(layout.entries@, i + 1, n as int);
        }
        offset = offset + entry.size;
        i = i + 1;
    }
    entries
}

/// The stride of a buffer whose last attribute is `last`: the end of that
/// attribute, counting four bytes per component.
pub open spec fn spec_stride(last: VertexAttribute) -> int {
    last.offset + 4 * components(last.format)
}

/// The layout of a buffer with the given attributes, of which there is at
/// least one, each of a float format: its stride is where the last attribute
/// ends.
pub fn get_buffer_layout(step_mode: BufferLayoutStepMode, entries: &[VertexAttribute]) -> (layout: VertexBufferLayout)
    requires
        entries@.len() >= 1,
        entries@.last().format != VertexFormat::Uint32,
        spec_stride(entries@.last()) <= u64::MAX,
    ensures
        layout.array_stride == spec_stride(entries@.last()),
        layout.step_mode == match step_mode {
            BufferLayoutStepMode::Vertex => VertexStepMode::Vertex,
            BufferLayoutStepMode::Instance => VertexStepMode::Instance,
        },
        layout.attributes@ == entries@,
{
    let last = entries[entries.len() - 1];
    let width: u64 = match last.format {
        VertexFormat::Float32 => 1,
        VertexFormat::Float32x2 => 2,
        VertexFormat::Float32x3 => 3,
        VertexFormat::Float32x4 => 4,
        VertexFormat::Uint32 => 1,
    };
    let step = match step_mode {
        BufferLayoutStepMode::Vertex => VertexStepMode::Vertex,
        BufferLayoutStepMode::Instance => VertexStepMode::Instance,
    };
    VertexBufferLayout {
        array_stride: last.offset + 4 * width,
        step_mode: step,
        attributes: vstd::slice::slice_to_vec(entries),
    }
}

/// A buffer's stride is where its last attribute ends, four bytes for each
/// float the attribute holds: one for `Float32`, two, three and four for
/// `Float32x2`, `Float32x3` and `Float32x4`.
pub proof fn lemma_stride_ends_last_attribute(offset: u64, shader_location: u32)
    ensures
        spec_stride(attribute(VertexFormat::Float32, offset, shader_location)) == offset + 4,
        spec_stride(attribute(VertexFormat::Float32x2, offset, shader_location)) == offset + 8,
        spec_stride(attribute(VertexFormat::Float32x3, offset, shader_location)) == offset + 12,
        spec_stride(attribute(VertexFormat::Float32x4, offset, shader_location)) == offset + 16,
{
}

/// The attributes of a described buffer follow one another: the first is at
/// offset 0, each next one starts where the one before it starts plus that
/// one's size, each sits at the shader location of its position, and an
/// entry of one, two, three or four floats is read as `Float32`,
/// `Float32x2`, `Float32x3` or `Float32x4`.
pub proof fn lemma_attributes_follow_one_another(layout: BufferLayout, i: int)
    requires
        0 <= i < layout.entries@.len(),
        i <= u32::MAX,
        size_prefix(layout.entries@, layout.entries@.len() as int) <= u64::MAX,
    ensures
        spec_buffer_attributes(layout, 0).offset == 0,
        spec_buffer_attributes(layout, i).shader_location == i,
        i + 1 < layout.entries@.len() ==> spec_buffer_attributes(layout, i + 1).offset
            == spec_buffer_attributes(layout, i).offset + layout.entries@[i].size,
        layout.entries@[i].size == 1 ==> spec_buffer_attributes(layout, i).format == VertexFormat::Float32,
        layout.entries@[i].size == 2 ==> spec_buffer_attributes(layout, i).format == VertexFormat::Float32x2,
        layout.entries@[i].size == 3 ==> spec_buffer_attributes(layout, i).format == VertexFormat::Float32x3,
        layout.entries@[i].size == 4 ==> spec_buffer_attributes(layout, i).format == VertexFormat::Float32x4,
{
    lemma_size_prefix_monotone(layout.entries@, i + 1, layout.entries@.len() as int);
    lemma_size_prefix_monotone(layout.entries@, 0, i);
    let before = size_prefix(layout.entries@, i);
    assert(size_prefix(layout.entries@, i + 1) == before + layout.entries@[i].size);
    assert(0 <= before);
}

} // verus!
