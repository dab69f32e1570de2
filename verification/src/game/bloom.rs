//! The bloom post-processing pass: the textures it renders through and the
//! order of its draws.
use vstd::prelude::*;
use crate::shader::BlendMode;
use crate::texture::{GpuTextureFormat, TextureUsageFlags};
use crate::types::UVec2;

verus! {

/// The number of downsampled bloom textures.
pub const BLOOM_SHADER_PASSES: usize = 4usize;

/// The size of the `n`-th bloom texture for a screen of `resolution`: the
/// screen halved `n` times, rounding down.
pub open spec fn spec_bloom_size(resolution: UVec2, n: nat) -> UVec2 {
    UVec2 {
        x: (resolution.x / vstd::arithmetic::power2::pow2(n) as u32) as u32,
        y: (resolution.y / vstd::arithmetic::power2::pow2(n) as u32) as u32,
    }
}

/// The sizes of the bloom textures for a screen of `resolution`, from the
/// full size down.
pub fn bloom_texture_sizes(resolution: UVec2) -> (sizes: Vec<UVec2>)
    ensures
        sizes@.len() == BLOOM_SHADER_PASSES,
        forall|n: int| 0 <= n < sizes@.len() ==> #[trigger] sizes@[n] == spec_bloom_size(resolution, n as nat),
{
    proof {
        vstd::arithmetic::power2::lemma2_to64();
    }
    let mut sizes: Vec<UVec2> = Vec::new();
    let mut n: usize = 0;
    let mut scale: u32 = 1;
    while n < BLOOM_SHADER_PASSES
        invariant
            n <= BLOOM_SHADER_PASSES,
            sizes@.len() == n,
            scale == vstd::arithmetic::power2::pow2(n as nat),
            vstd::arithmetic::power2::pow2(0) == 1,
            vstd::arithmetic::power2::pow2(1) == 2,
            vstd::arithmetic::power2::pow2(2) == 4,
            vstd::arithmetic::power2::pow2(3) == 8,
            vstd::arithmetic::power2::pow2(4) == 16,
            forall|j: int| 0 <= j < n ==> #[trigger] sizes@[j] == spec_bloom_size(resolution, j as nat),
        decreases BLOOM_SHADER_PASSES - n,
    {
        sizes.push(UVec2 { x: resolution.x / scale, y: resolution.y / scale });
        scale = scale * 2;
        n = n + 1;
    }
    sizes
}

/// Each bloom texture is half the one before it, rounding down, in both
/// directions.
pub proof fn lemma_bloom_halves(resolution: UVec2, n: nat)
    requires
        n + 1 < BLOOM_SHADER_PASSES,
    ensures
        spec_bloom_size(resolution, n + 1) == (UVec2 {
            x: spec_bloom_size(resolution, n).x / 2,
            y: spec_bloom_size(resolution, n).y / 2,
        }),
{
    vstd::arithmetic::power2::lemma2_to64();
    let p = vstd::arithmetic::power2::pow2(n);
    assert(vstd::arithmetic::power2::pow2(n + 1) == p * 2);
    vstd::arithmetic::div_mod::lemma_div_denominator(resolution.x as int, p as int, 2);
    vstd::arithmetic::div_mod::lemma_div_denominator(resolution.y as int, p as int, 2);
}

/// A texture the bloom pass reads or draws into.
#[derive(Clone, Copy, PartialEq, Eq, Structural, Debug)]
pub enum BloomTexture {
    /// The texture the scene was rendered into.
    Target,
    /// The copy of the scene that is sampled.
    Read,
    /// The `n`-th downsampled texture.
    Bloom(usize),
}

/// The shader of a bloom draw.
#[derive(Clone, Copy, PartialEq, Eq, Structural, Debug)]
pub enum BloomShader {
    /// Copies the bright parts only.
    ThresholdBlit,
    /// Copies.
    Blit,
    /// Adds the source, scaled by the add factor, onto the target.
    Add,
    /// Maps the scene onto the window's surface.
    Tonemap,
}

/// A bind group a post-processing draw binds.
#[derive(Clone, Copy, PartialEq, Eq, Structural, Debug)]
pub enum PostBinding {
    /// The resolution of the screen.
    Resolution,
    /// The texture being read, with its sampler.
    ReadTexture,
    /// The factor the add shader scales by.
    Factor,
}

impl BloomShader {
    /// The fragment entry point of the shader's WGSL code: the add shader has
    /// its own code and uses the default entry point; the others share one
    /// file.
    pub fn fs_entry(self) -> (e: &'static str)
        ensures
            e@ == (match self {
                BloomShader::ThresholdBlit => "fs_thresholdblit"@,
                BloomShader::Blit => "fs_blit"@,
                BloomShader::Add => "fs_main"@,
                BloomShader::Tonemap => "fs_tonemap"@,
            }),
    {
        match self {
            BloomShader::ThresholdBlit => "fs_thresholdblit",
            BloomShader::Blit => "fs_blit",
            BloomShader::Add => "fs_main",
            BloomShader::Tonemap => "fs_tonemap",
        }
    }

    /// How the shader's pipeline writes into its target: the blits replace
    /// it, the add shader adds onto it, and tone mapping blends with alpha as
    /// every other pipeline does.
    pub fn blend(self) -> (b: BlendMode)
        ensures
            b == (match self {
                BloomShader::ThresholdBlit => BlendMode::Replace,
                BloomShader::Blit => BlendMode::Replace,
                BloomShader::Add => BlendMode::Additive,
                BloomShader::Tonemap => BlendMode::Alpha,
            }),
    {
        match self {
            BloomShader::ThresholdBlit => BlendMode::Replace,
            BloomShader::Blit => BlendMode::Replace,
            BloomShader::Add => BlendMode::Additive,
            BloomShader::Tonemap => BlendMode::Alpha,
        }
    }

    /// The bind groups a draw with the shader binds, at slots 0 and 1: the
    /// add shader reads its factor, the others the resolution; all read the
    /// read texture.
    pub fn bindings(self) -> (b: (PostBinding, PostBinding))
        ensures
            b == (if self == BloomShader::Add {
                (PostBinding::Factor, PostBinding::ReadTexture)
            } else {
                (PostBinding::Resolution, PostBinding::ReadTexture)
            }),
    {
        match self {
            BloomShader::Add => (PostBinding::Factor, PostBinding::ReadTexture),
            _ => (PostBinding::Resolution, PostBinding::ReadTexture),
        }
    }
}

/// A texture post-processing creates: what it is for, its size and the GPU
/// usages and format it is created with.
#[derive(Clone, Copy, PartialEq, Eq, Structural, Debug)]
pub struct PostTexture {
    pub role: BloomTexture,
    pub size: UVec2,
    pub usages: TextureUsageFlags,
    pub format: GpuTextureFormat,
}


pub open spec fn usages(
    texture_binding: bool,
    copy_src: bool,
    copy_dst: bool,
    render_attachment: bool,
) -> TextureUsageFlags {
    TextureUsageFlags { texture_binding, copy_src, copy_dst, render_attachment }
}

/// The textures of post-processing, in the order they are created: the
/// scene is rendered into a full-size target that can be copied from; the
/// copy that is sampled is full size too and can be copied into; then come
/// the bloom textures, each half the one before, drawn into and sampled.
/// All hold 16-bit float RGBA.
pub fn post_textures(resolution: UVec2) -> (t: Vec<PostTexture>)
    ensures
        t@.len() == 2 + BLOOM_SHADER_PASSES,
        t@[0] == (PostTexture {
            role: BloomTexture::Target,
            size: resolution,
            usages: usages(false, true, false, true),
            format: GpuTextureFormat::Rgba16Float,
        }),
        t@[1] == (PostTexture {
            role: BloomTexture::Read,
            size: resolution,
            usages: usages(true, false, true, false),
            format: GpuTextureFormat::Rgba16Float,
        }),
        forall|n: int|
            0 <= n < BLOOM_SHADER_PASSES ==> #[trigger] t@[2 + n] == (PostTexture {
                role: BloomTexture::Bloom(n as usize),
                size: spec_bloom_size(resolution, n as nat),
                usages: usages(true, false, false, true),
                format: GpuTextureFormat::Rgba16Float,
            }),
{
    let mut t: Vec<PostTexture> = Vec::new();
    t.push(
        PostTexture {
            role: BloomTexture::Target,
            size: resolution,
            usages: TextureUsageFlags {
                texture_binding: false,
                copy_src: true,
                copy_dst: false,
                render_attachment: true,
            },
            format: GpuTextureFormat::Rgba16Float,
        },
    );
    t.push(
        PostTexture {
            role: BloomTexture::Read,
            size: resolution,
            usages: TextureUsageFlags {
                texture_binding: true,
                copy_src: false,
                copy_dst: true,
                render_attachment: false,
            },
            format: GpuTextureFormat::Rgba16Float,
        },
    );
    let sizes = bloom_texture_sizes(resolution);
    let mut n: usize = 0;
    while n < BLOOM_SHADER_PASSES
        invariant
            n <= BLOOM_SHADER_PASSES,
            sizes@.len() == BLOOM_SHADER_PASSES,
            forall|j: int| 0 <= j < sizes@.len() ==> #[trigger] sizes@[j] == spec_bloom_size(resolution, j as nat),
            t@.len() == 2 + n,
            t@[0] == (PostTexture {
                role: BloomTexture::Target,
                size: resolution,
                usages: usages(false, true, false, true),
                format: GpuTextureFormat::Rgba16Float,
            }),
            t@[1] == (PostTexture {
                role: BloomTexture::Read,
                size: resolution,
                usages: usages(true, false, true, false),
                format: GpuTextureFormat::Rgba16Float,
            }),
            forall|j: int|
                0 <= j < n ==> #[trigger] t@[2 + j] == (PostTexture {
                    role: BloomTexture::Bloom(j as usize),
                    size: spec_bloom_size(resolution, j as nat),
                    usages: usages(true, false, false, true),
                    format: GpuTextureFormat::Rgba16Float,
                }),
        decreases BLOOM_SHADER_PASSES - n,
    {
        t.push(
            PostTexture {
                role: BloomTexture::Bloom(n),
                size: sizes[n],
                usages: TextureUsageFlags {
                    texture_binding: true,
                    copy_src: false,
                    copy_dst: false,
                    render_attachment: true,
                },
                format: GpuTextureFormat::Rgba16Float,
            },
        );
        n = n + 1;
    }
    t
}

/// Every texture of post-processing has a role of its own, so each gets a
/// handle of its own.
pub proof fn lemma_post_textures_distinct(t: Seq<PostTexture>)
    requires
        t.len() == 2 + BLOOM_SHADER_PASSES,
        t[0].role == BloomTexture::Target,
        t[1].role == BloomTexture::Read,
        forall|n: int| 0 <= n < BLOOM_SHADER_PASSES ==> #[trigger] t[2 + n].role == BloomTexture::Bloom(n as usize),
    ensures
        forall|i: int, j: int| 0 <= i < j < t.len() ==> t[i].role != t[j].role,
{
    assert forall|i: int, j: int| 0 <= i < j < t.len() implies t[i].role != t[j].role by {
        if i >= 2 {
            assert(t[2 + (i - 2)].role == BloomTexture::Bloom((i - 2) as usize));
            assert(t[2 + (j - 2)].role == BloomTexture::Bloom((j - 2) as usize));
        } else if j >= 2 {
            assert(t[2 + (j - 2)].role == BloomTexture::Bloom((j - 2) as usize));
        }
    }
}

/// One draw of the bloom pass.
#[derive(Clone, Copy, PartialEq, Eq, Structural, Debug)]
pub struct BloomStep {
    pub source: BloomTexture,
    pub target: BloomTexture,
    pub shader: BloomShader,
    /// Whether this is the final draw, which adds with the reduced factor.
    pub final_add: bool,
}

pub open spec fn step(source: BloomTexture, target: BloomTexture, shader: BloomShader, final_add: bool) -> BloomStep {
    BloomStep { source, target, shader, final_add }
}

/// The draws of the bloom pass, after the scene is copied into the read
/// texture: the bright parts go into the first bloom texture, each further
/// bloom texture is a copy of the one before; then each is added onto the
/// one before it, from the smallest up; last, the first one is added onto
/// the scene with the reduced factor.
pub open spec fn spec_bloom_steps() -> Seq<BloomStep> {
    seq![
        step(BloomTexture::Read, BloomTexture::Bloom(0), BloomShader::ThresholdBlit, false),
        step(BloomTexture::Bloom(0), BloomTexture::Bloom(1), BloomShader::Blit, false),
        step(BloomTexture::Bloom(1), BloomTexture::Bloom(2), BloomShader::Blit, false),
        step(BloomTexture::Bloom(2), BloomTexture::Bloom(3), BloomShader::Blit, false),
        step(BloomTexture::Bloom(3), BloomTexture::Bloom(2), BloomShader::Add, false),
        step(BloomTexture::Bloom(2), BloomTexture::Bloom(1), BloomShader::Add, false),
        step(BloomTexture::Bloom(1), BloomTexture::Bloom(0), BloomShader::Add, false),
        step(BloomTexture::Bloom(0), BloomTexture::Target, BloomShader::Add, true),
    ]
}

/// The draws of the bloom pass, in order.
pub fn bloom_steps() -> (steps: Vec<BloomStep>)
    ensures
        steps@ == spec_bloom_steps(),
{
    let mut steps: Vec<BloomStep> = Vec::new();
    let mut i: usize = 0;
    while i < BLOOM_SHADER_PASSES
        invariant
            i <= BLOOM_SHADER_PASSES,
            steps@ == spec_bloom_steps().take(i as int),
        decreases BLOOM_SHADER_PASSES - i,
    {
        let source = if i == 0 {
            BloomTexture::Read
        } else {
            BloomTexture::Bloom(i - 1)
        };
        let shader = if i == 0 {
            BloomShader::ThresholdBlit
        } else {
            BloomShader::Blit
        };
        steps.push(BloomStep { source, target: BloomTexture::Bloom(i), shader, final_add: false });
        assert(steps@ =~= spec_bloom_steps().take(i + 1));
        i = i + 1;
    }
    let mut j: usize = BLOOM_SHADER_PASSES - 1;
    while j >= 1
        invariant
            j < BLOOM_SHADER_PASSES,
            steps@ == spec_bloom_steps().take(BLOOM_SHADER_PASSES + (BLOOM_SHADER_PASSES - 1 - j)),
        decreases j,
    {
        steps.push(
            BloomStep {
                source: BloomTexture::Bloom(j),
                target: BloomTexture::Bloom(j - 1),
                shader: BloomShader::Add,
                final_add: false,
            },
        );
        assert(steps@ =~= spec_bloom_steps().take(
            BLOOM_SHADER_PASSES + (BLOOM_SHADER_PASSES - 1 - j) + 1,
        ));
        j = j - 1;
    }
    steps.push(
        BloomStep {
            source: BloomTexture::Bloom(0),
            target: BloomTexture::Target,
            shader: BloomShader::Add,
            final_add: true,
        },
    );
    assert(steps@ =~= spec_bloom_steps());
    steps
}

/// The region copied from a texture of size `source` into one of size
/// `target`: as wide and as high as the smaller of the two.
pub fn copy_extent(source: UVec2, target: UVec2) -> (e: UVec2)
    ensures
        e.x == (if target.x < source.x { target.x } else { source.x }),
        e.y == (if target.y < source.y { target.y } else { source.y }),
{
    UVec2 {
        x: if target.x < source.x { target.x } else { source.x },
        y: if target.y < source.y { target.y } else { source.y },
    }
}

/// The bloom draws go down and back up the chain of bloom textures: the
/// first draws the bright parts of the read texture into the largest one;
/// each of the next three copies a bloom texture into the next smaller one;
/// each of the three after adds a bloom texture onto the next larger one;
/// the last adds the largest onto the scene with the reduced factor, and is
/// the only one that does.
pub proof fn lemma_bloom_chain()
    ensures
        spec_bloom_steps().len() == 2 * BLOOM_SHADER_PASSES,
        spec_bloom_steps()[0].source == BloomTexture::Read,
        spec_bloom_steps()[0].target == BloomTexture::Bloom(0),
        spec_bloom_steps()[0].shader == BloomShader::ThresholdBlit,
        forall|n: int| 1 <= n < BLOOM_SHADER_PASSES ==> {
            &&& #[trigger] spec_bloom_steps()[n].source == BloomTexture::Bloom((n - 1) as usize)
            &&& spec_bloom_steps()[n].target == BloomTexture::Bloom(n as usize)
            &&& spec_bloom_steps()[n].shader == BloomShader::Blit
        },
        forall|n: int| 1 <= n < BLOOM_SHADER_PASSES ==> {
            let s = #[trigger] spec_bloom_steps()[2 * BLOOM_SHADER_PASSES - 1 - n];
            &&& s.source == BloomTexture::Bloom(n as usize)
            &&& s.target == BloomTexture::Bloom((n - 1) as usize)
            &&& s.shader == BloomShader::Add
        },
        spec_bloom_steps()[2 * BLOOM_SHADER_PASSES - 1].source == BloomTexture::Bloom(0),
        spec_bloom_steps()[2 * BLOOM_SHADER_PASSES - 1].target == BloomTexture::Target,
        spec_bloom_steps()[2 * BLOOM_SHADER_PASSES - 1].shader == BloomShader::Add,
        forall|i: int| 0 <= i < 2 * BLOOM_SHADER_PASSES ==> (#[trigger] spec_bloom_steps()[i].final_add
            <==> i == 2 * BLOOM_SHADER_PASSES - 1),
{
}

} // verus!
