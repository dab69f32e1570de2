//! Texture formats, descriptors and the plans by which textures are created
//! and uploaded.
use vstd::prelude::*;
use crate::types::UVec2;
use self::sampler::{SamplerAddressMode, SamplerFilterMode};

pub mod decode;
pub mod sampler;
pub mod texture_usage;

verus! {

/// The pixel formats the engine knows.
#[derive(Clone, Copy, PartialEq, Eq, Structural, Debug)]
pub enum TextureFormat {
    Rgba8U,
    Bgra8U,
    F32,
    Depth32F,
    Depth16U,
}

/// The GPU formats the engine creates textures with.
#[derive(Clone, Copy, PartialEq, Eq, Structural, Debug)]
pub enum GpuTextureFormat {
    Rgba8UnormSrgb,
    Rgba8Unorm,
    Bgra8UnormSrgb,
    R32Float,
    Rgba16Float,
    Depth32Float,
    Depth16Unorm,
}

impl TextureFormat {
    pub open spec fn spec_gpu_format(self) -> GpuTextureFormat {
        match self {
            TextureFormat::Rgba8U => GpuTextureFormat::Rgba8UnormSrgb,
            TextureFormat::Bgra8U => GpuTextureFormat::Bgra8UnormSrgb,
            TextureFormat::F32 => GpuTextureFormat::R32Float,
            TextureFormat::Depth32F => GpuTextureFormat::Depth32Float,
            TextureFormat::Depth16U => GpuTextureFormat::Depth16Unorm,
        }
    }

    pub open spec fn spec_channels(self) -> u32 {
        match self {
            TextureFormat::Rgba8U | TextureFormat::Bgra8U => 4,
            _ => 1,
        }
    }

    /// The GPU format a texture of this format is created with.
    pub fn gpu_format(self) -> (f: GpuTextureFormat)
        ensures
            f == self.spec_gpu_format(),
    {
        match self {
            TextureFormat::Rgba8U => GpuTextureFormat::Rgba8UnormSrgb,
            TextureFormat::Bgra8U => GpuTextureFormat::Bgra8UnormSrgb,
            TextureFormat::F32 => GpuTextureFormat::R32Float,
            TextureFormat::Depth32F => GpuTextureFormat::Depth32Float,
            TextureFormat::Depth16U => GpuTextureFormat::Depth16Unorm,
        }
    }

    /// The number of channels counted per pixel when rows of data are uploaded.
    pub fn channels(self) -> (c: u32)
        ensures
            c == self.spec_channels(),
    {
        match self {
            TextureFormat::Rgba8U | TextureFormat::Bgra8U => 4,
            _ => 1,
        }
    }
}

/// The GPU usages a texture is created with.
#[derive(Clone, Copy, PartialEq, Eq, Structural, Debug)]
pub struct TextureUsageFlags {
    pub texture_binding: bool,
    pub copy_src: bool,
    pub copy_dst: bool,
    pub render_attachment: bool,
}

/// The GPU usages that the usage bits of a descriptor ask for: each bit that
/// is set turns on its usage.
pub open spec fn spec_gpu_usages(usage: u32) -> TextureUsageFlags {
    TextureUsageFlags {
        texture_binding: usage & texture_usage::BIND != texture_usage::NONE,
        copy_src: usage & texture_usage::COPY_SRC != texture_usage::NONE,
        copy_dst: usage & texture_usage::COPY_TARGET != texture_usage::NONE,
        render_attachment: usage & texture_usage::TARGET != texture_usage::NONE,
    }
}

/// The GPU usages that the usage bits `usage` ask for.
pub fn gpu_usages(usage: u32) -> (u: TextureUsageFlags)
    ensures
        u == spec_gpu_usages(usage),
{
    TextureUsageFlags {
        texture_binding: usage & texture_usage::BIND != texture_usage::NONE,
        copy_src: usage & texture_usage::COPY_SRC != texture_usage::NONE,
        copy_dst: usage & texture_usage::COPY_TARGET != texture_usage::NONE,
        render_attachment: usage & texture_usage::TARGET != texture_usage::NONE,
    }
}

/// What a texture is created from.
pub struct TextureDescriptor<'a> {
    pub name: &'static str,
    pub size: UVec2,
    pub sample_count: u32,
    pub format: TextureFormat,
    /// Bits of `texture_usage`.
    pub usage: u32,
    /// Pixels to upload, row after row, if any.
    pub data: Option<&'a [u8]>,
    /// Whether the pixels of a decoded image are stored without sRGB
    /// conversion, as a normal map's are.
    pub is_normal_map: bool,
    pub address_mode: SamplerAddressMode,
}

impl<'a> Default for TextureDescriptor<'a> {
    fn default() -> (d: TextureDescriptor<'a>)
        ensures
            d.size == (UVec2 { x: 0, y: 0 }),
            d.sample_count == 1,
            d.format == TextureFormat::Bgra8U,
            d.usage == texture_usage::TARGET | texture_usage::BIND | texture_usage::COPY_TARGET,
            d.data is None,
            !d.is_normal_map,
            d.address_mode == SamplerAddressMode::Clamp,
            d.name@ == "texture"@,
    {
        TextureDescriptor {
            name: "texture",
            size: UVec2 { x: 0, y: 0 },
            sample_count: 1,
            format: TextureFormat::Bgra8U,
            usage: texture_usage::TARGET | texture_usage::BIND | texture_usage::COPY_TARGET,
            data: None,
            is_normal_map: false,
            address_mode: SamplerAddressMode::Clamp,
        }
    }
}

/// How rows of pixel data are uploaded.
#[derive(Clone, Copy, PartialEq, Eq, Structural, Debug)]
pub struct RowLayout {
    pub bytes_per_row: u32,
    pub rows_per_image: u32,
}

/// How a texture is created from a descriptor.
#[derive(Clone, Copy, PartialEq, Eq, Structural, Debug)]
pub struct TextureCreation {
    pub width: u32,
    pub height: u32,
    pub sample_count: u32,
    pub format: GpuTextureFormat,
    pub usages: TextureUsageFlags,
    /// How the descriptor's data is uploaded, when it has data.
    pub upload: Option<RowLayout>,
}

impl<'a> TextureDescriptor<'a> {
    /// How a texture is created from this descriptor: its size, sample count
    /// and GPU format, the usages its bits ask for and, when it carries data,
    /// rows of `channels * width` bytes, `height` rows per image.
    pub open spec fn spec_creation(&self) -> TextureCreation {
        TextureCreation {
            width: self.size.x,
            height: self.size.y,
            sample_count: self.sample_count,
            format: self.format.spec_gpu_format(),
            usages: spec_gpu_usages(self.usage),
            upload: match self.data {
                Some(_) => Some(
                    RowLayout {
                        bytes_per_row: (self.format.spec_channels() * self.size.x) as u32,
                        rows_per_image: self.size.y,
                    },
                ),
                None => None,
            },
        }
    }

    /// How a texture is created from this descriptor. A row of data must fit
    /// in a `u32` of bytes.
    pub fn creation(&self) -> (c: TextureCreation)
        requires
            self.data is Some ==> self.format.spec_channels() * self.size.x <= u32::MAX,
        ensures
            c == self.spec_creation(),
    {
        let upload = match self.data {
            Some(_) => Some(
                RowLayout {
                    bytes_per_row: self.format.channels() * self.size.x,
                    rows_per_image: self.size.y,
                },
            ),
            None => None,
        };
        TextureCreation {
            width: self.size.x,
            height: self.size.y,
            sample_count: self.sample_count,
            format: self.format.gpu_format(),
            usages: gpu_usages(self.usage),
            upload,
        }
    }
}

/// A texture with its GPU objects `G`, and its size in pixels.
pub struct Texture<G> {
    pub gpu: G,
    pub width: u32,
    pub height: u32,
}

impl<G> Texture<G> {
    /// The width in pixels.
    pub fn width(&self) -> (w: u32)
        ensures
            w == self.width,
    {
        self.width
    }

    /// The height in pixels.
    pub fn height(&self) -> (h: u32)
        ensures
            h == self.height,
    {
        self.height
    }
}

/// How a decoded RGBA image is uploaded into a new texture and sampled.
#[derive(Clone, Debug)]
pub struct ImageUpload {
    pub width: u32,
    pub height: u32,
    pub format: GpuTextureFormat,
    pub usages: TextureUsageFlags,
    pub rows: RowLayout,
    pub address_mode: SamplerAddressMode,
    pub mag_filter: SamplerFilterMode,
    pub min_filter: SamplerFilterMode,
    pub mipmap_filter: SamplerFilterMode,
    /// The pixels, four bytes each, row after row.
    pub pixels: Vec<u8>,
}

/// The upload of a `width` by `height` RGBA image: normal maps are stored as
/// linear RGBA, other images as sRGB; the texture can be bound and written;
/// rows are four bytes per pixel; it is sampled with the descriptor's address
/// mode, linear filtering and nearest mipmap filtering.
pub open spec fn spec_image_upload(width: u32, height: u32, pixels: Seq<u8>, desc: TextureDescriptor, u: ImageUpload) -> bool {
    &&& u.width == width
    &&& u.height == height
    &&& u.format == if desc.is_normal_map {
        GpuTextureFormat::Rgba8Unorm
    } else {
        GpuTextureFormat::Rgba8UnormSrgb
    }
    &&& u.usages == (TextureUsageFlags {
        texture_binding: true,
        copy_src: false,
        copy_dst: true,
        render_attachment: false,
    })
    &&& u.rows == (RowLayout { bytes_per_row: (4 * width) as u32, rows_per_image: height })
    &&& u.address_mode == desc.address_mode
    &&& u.mag_filter == SamplerFilterMode::Linear
    &&& u.min_filter == SamplerFilterMode::Linear
    &&& u.mipmap_filter == SamplerFilterMode::Nearest
    &&& u.pixels@ == pixels
}

/// Plans the upload of a decoded `width` by `height` RGBA image. A row of
/// the image must fit in a `u32` of bytes.
pub fn image_upload(width: u32, height: u32, pixels: Vec<u8>, desc: &TextureDescriptor) -> (u: ImageUpload)
    requires
        4 * width <= u32::MAX,
    ensures
        spec_image_upload(width, height, pixels@, *desc, u),
{
    let format = if desc.is_normal_map {
        GpuTextureFormat::Rgba8Unorm
    } else {
        GpuTextureFormat::Rgba8UnormSrgb
    };
    ImageUpload {
        width,
        height,
        format,
        usages: TextureUsageFlags {
            texture_binding: true,
            copy_src: false,
            copy_dst: true,
            render_attachment: false,
        },
        rows: RowLayout { bytes_per_row: 4 * width, rows_per_image: height },
        address_mode: desc.address_mode,
        mag_filter: SamplerFilterMode::Linear,
        min_filter: SamplerFilterMode::Linear,
        mipmap_filter: SamplerFilterMode::Nearest,
        pixels,
    }
}

/// Decodes an encoded image file and plans its upload. There is nothing to
/// upload when the bytes are not an image the engine can decode, or when a
/// row of the image would not fit in a `u32` of bytes.
pub fn decode_image(bytes: &[u8], desc: &TextureDescriptor) -> (r: Option<ImageUpload>)
    ensures
        match decode::decoded_rgba8(bytes@) {
            Some((w, h, p)) => {
                &&& (r is None <==> 4 * w > u32::MAX)
                &&& (r matches Some(u) ==> spec_image_upload(w, h, p, *desc, u))
            },
            None => r is None,
        },
{
    match decode::decode_rgba8(bytes) {
        Some((width, height, pixels)) => {
            if width > 0x3fff_ffff {
                None
            } else {
                Some(image_upload(width, height, pixels, desc))
            }
        },
        None => None,
    }
}

/// The 8-bit colour formats count four channels per pixel and every other
/// format one; so a colour texture's rows of data are four bytes per pixel
/// and any other's one per pixel, `height` rows per image. Each format is
/// created with its own GPU format: colour as sRGB, the float and depth
/// formats as themselves.
pub proof fn lemma_rows_follow_channels(desc: TextureDescriptor)
    requires
        desc.data is Some,
        4 * desc.size.x <= u32::MAX,
    ensures
        TextureFormat::Rgba8U.spec_channels() == 4,
        TextureFormat::Bgra8U.spec_channels() == 4,
        TextureFormat::F32.spec_channels() == 1,
        TextureFormat::Depth32F.spec_channels() == 1,
        TextureFormat::Depth16U.spec_channels() == 1,
        (desc.format == TextureFormat::Rgba8U || desc.format == TextureFormat::Bgra8U) ==> desc.spec_creation().upload
            == Some(RowLayout { bytes_per_row: (4 * desc.size.x) as u32, rows_per_image: desc.size.y }),
        !(desc.format == TextureFormat::Rgba8U || desc.format == TextureFormat::Bgra8U) ==> desc.spec_creation().upload
            == Some(RowLayout { bytes_per_row: desc.size.x, rows_per_image: desc.size.y }),
        TextureFormat::Rgba8U.spec_gpu_format() == GpuTextureFormat::Rgba8UnormSrgb,
        TextureFormat::Bgra8U.spec_gpu_format() == GpuTextureFormat::Bgra8UnormSrgb,
        TextureFormat::F32.spec_gpu_format() == GpuTextureFormat::R32Float,
        TextureFormat::Depth32F.spec_gpu_format() == GpuTextureFormat::Depth32Float,
        TextureFormat::Depth16U.spec_gpu_format() == GpuTextureFormat::Depth16Unorm,
{
    if !(desc.format == TextureFormat::Rgba8U || desc.format == TextureFormat::Bgra8U) {
        assert(desc.format.spec_channels() == 1);
        assert(desc.format.spec_channels() * desc.size.x == desc.size.x);
    }
}

/// Each usage bit turns on its own usage and no other: no bits ask for no
/// usage, and every bit asks for everything.
pub proof fn lemma_usage_bits(usage: u32)
    ensures
        spec_gpu_usages(texture_usage::NONE) == (TextureUsageFlags {
            texture_binding: false,
            copy_src: false,
            copy_dst: false,
            render_attachment: false,
        }),
        spec_gpu_usages(texture_usage::BIND) == (TextureUsageFlags {
            texture_binding: true,
            copy_src: false,
            copy_dst: false,
            render_attachment: false,
        }),
        spec_gpu_usages(texture_usage::COPY_SRC) == (TextureUsageFlags {
            texture_binding: false,
            copy_src: true,
            copy_dst: false,
            render_attachment: false,
        }),
        spec_gpu_usages(texture_usage::COPY_TARGET) == (TextureUsageFlags {
            texture_binding: false,
            copy_src: false,
            copy_dst: true,
            render_attachment: false,
        }),
        spec_gpu_usages(texture_usage::TARGET) == (TextureUsageFlags {
            texture_binding: false,
            copy_src: false,
            copy_dst: false,
            render_attachment: true,
        }),
        spec_gpu_usages(usage | texture_usage::BIND).texture_binding,
        spec_gpu_usages(usage | texture_usage::TARGET).render_attachment,
{
    assert(0u32 & 1u32 == 0u32 && 0u32 & 2u32 == 0u32 && 0u32 & 4u32 == 0u32 && 0u32 & 8u32 == 0u32) by (bit_vector);
    assert(1u32 & 1u32 != 0u32 && 1u32 & 2u32 == 0u32 && 1u32 & 4u32 == 0u32 && 1u32 & 8u32 == 0u32) by (bit_vector);
    assert(2u32 & 1u32 == 0u32 && 2u32 & 2u32 != 0u32 && 2u32 & 4u32 == 0u32 && 2u32 & 8u32 == 0u32) by (bit_vector);
    assert(4u32 & 1u32 == 0u32 && 4u32 & 2u32 == 0u32 && 4u32 & 4u32 != 0u32 && 4u32 & 8u32 == 0u32) by (bit_vector);
    assert(8u32 & 1u32 == 0u32 && 8u32 & 2u32 == 0u32 && 8u32 & 4u32 == 0u32 && 8u32 & 8u32 != 0u32) by (bit_vector);
    assert((usage | 1u32) & 1u32 != 0u32) by (bit_vector);
    assert((usage | 8u32) & 8u32 != 0u32) by (bit_vector);
}

/// A decoded image is uploaded four bytes per pixel and row, all of its
/// rows at once, with exactly its pixels; a normal map stays linear, any
/// other image is sRGB.
pub proof fn lemma_image_rows(width: u32, height: u32, pixels: Seq<u8>, desc: TextureDescriptor, u: ImageUpload)
    requires
        spec_image_upload(width, height, pixels, desc, u),
        4 * width <= u32::MAX,
    ensures
        u.rows.bytes_per_row == 4 * width,
        u.rows.rows_per_image == height,
        u.pixels@ == pixels,
        desc.is_normal_map <==> u.format == GpuTextureFormat::Rgba8Unorm,
        !desc.is_normal_map <==> u.format == GpuTextureFormat::Rgba8UnormSrgb,
{
}

/// A texture is created at its descriptor's size and sample count, with the
/// GPU format of its format and the usages of its bits, and its data, when
/// it has any, is uploaded as whole images of `height` rows; without data
/// nothing is uploaded.
pub proof fn lemma_creation_follows_descriptor(desc: TextureDescriptor)
    ensures
        desc.spec_creation().width == desc.size.x,
        desc.spec_creation().height == desc.size.y,
        desc.spec_creation().sample_count == desc.sample_count,
        desc.spec_creation().format == desc.format.spec_gpu_format(),
        desc.spec_creation().usages == spec_gpu_usages(desc.usage),
        desc.data is None <==> desc.spec_creation().upload is None,
        desc.spec_creation().upload matches Some(rows) ==> rows.rows_per_image == desc.size.y,
{
}

} // verus!
