use vstd::arithmetic::power2::{lemma2_to64, lemma_pow2_unfold, pow2};
use vstd::prelude::*;

verus! {

/// Pixel layouts that an image in CPU memory can have.
#[derive(Clone, Copy, Debug, PartialEq, Eq, Structural)]
pub enum PixelFormat {
    Rgba32,
    Rgba64,
    Rgb565,
    Argb1555,
    Bgra4444,
    Bgra32,
    Rgba64Float,
    Rgba128Float,
    /// Any layout that the device cannot sample directly; the code is the
    /// host's own identifier for it.
    Other(u32),
}

/// Texel formats of a device texture.
#[derive(Clone, Copy, Debug, PartialEq, Eq, Structural)]
pub enum TextureFormat {
    R8G8B8A8Unorm,
    R16G16B16A16Unorm,
    B5G6R5Unorm,
    B5G5R5A1Unorm,
    B4G4R4A4Unorm,
    B8G8R8A8Unorm,
    R16G16B16A16Float,
    R32G32B32A32Float,
}

/// The texture format that a pixel layout uploads as, and whether the pixels
/// must first be converted to 8-bit RGBA.
pub open spec fn format_mapping(p: PixelFormat) -> (bool, TextureFormat) {
    match p {
        PixelFormat::Rgba32 => (false, TextureFormat::R8G8B8A8Unorm),
        PixelFormat::Rgba64 => (false, TextureFormat::R16G16B16A16Unorm),
        PixelFormat::Rgb565 => (false, TextureFormat::B5G6R5Unorm),
        PixelFormat::Argb1555 => (false, TextureFormat::B5G5R5A1Unorm),
        PixelFormat::Bgra4444 => (false, TextureFormat::B4G4R4A4Unorm),
        PixelFormat::Bgra32 => (false, TextureFormat::B8G8R8A8Unorm),
        PixelFormat::Rgba64Float => (false, TextureFormat::R16G16B16A16Float),
        PixelFormat::Rgba128Float => (false, TextureFormat::R32G32B32A32Float),
        PixelFormat::Other(_) => (true, TextureFormat::R8G8B8A8Unorm),
    }
}

/// Maps a pixel layout to the texture format it is uploaded as. The flag is
/// set where the pixels must be converted to 8-bit RGBA before the upload.
pub fn texture_format_for(p: PixelFormat) -> (r: (bool, TextureFormat))
    ensures
        r == format_mapping(p),
{
    match p {
        PixelFormat::Rgba32 => (false, TextureFormat::R8G8B8A8Unorm),
        PixelFormat::Rgba64 => (false, TextureFormat::R16G16B16A16Unorm),
        PixelFormat::Rgb565 => (false, TextureFormat::B5G6R5Unorm),
        PixelFormat::Argb1555 => (false, TextureFormat::B5G5R5A1Unorm),
        PixelFormat::Bgra4444 => (false, TextureFormat::B4G4R4A4Unorm),
        PixelFormat::Bgra32 => (false, TextureFormat::B8G8R8A8Unorm),
        PixelFormat::Rgba64Float => (false, TextureFormat::R16G16B16A16Float),
        PixelFormat::Rgba128Float => (false, TextureFormat::R32G32B32A32Float),
        PixelFormat::Other(_) => (true, TextureFormat::R8G8B8A8Unorm),
    }
}

/// `floor(log2(n))` for a positive `n`.
pub open spec fn floor_log2(n: nat) -> nat
    decreases n,
{
    if n <= 1 {
        0
    } else {
        1 + floor_log2(n / 2)
    }
}

/// The larger of `a` and `b`.
pub open spec fn max_u32(a: u32, b: u32) -> u32 {
    if a >= b {
        a
    } else {
        b
    }
}

/// The length of a full mip chain for an image of the given extent.
pub open spec fn mip_levels(width: u32, height: u32) -> nat {
    floor_log2(max_u32(width, height) as nat) + 1
}

proof fn lemma_floor_log2_below(n: nat, j: nat)
    requires
        1 <= n < pow2(j),
    ensures
        floor_log2(n) < j,
    decreases j,
{
    lemma2_to64();
    if n > 1 {
        lemma_pow2_unfold(j);
        lemma_floor_log2_below(n / 2, (j - 1) as nat);
    }
}

/// Number of mip levels of a full chain for a `width` by `height` image:
/// `floor(log2(max(width, height))) + 1`.
pub fn mip_level_count(width: u32, height: u32) -> (r: u32)
    requires
        width > 0 || height > 0,
    ensures
        r as nat == mip_levels(width, height),
        1 <= r <= 32,
{
    let mut n: u32 = if width >= height {
        width
    } else {
        height
    };
    proof {
        lemma2_to64();
        lemma_floor_log2_below(n as nat, 32);
    }
    let mut k: u32 = 0;
    while n > 1
        invariant
            n >= 1,
            k as nat + floor_log2(n as nat) == floor_log2(max_u32(width, height) as nat),
            floor_log2(max_u32(width, height) as nat) < 32,
        decreases n,
    {
        n = n / 2;
        k = k + 1;
    }
    k + 1
}

/// What a 2D texture is created with.
#[derive(Clone, Copy, Debug, PartialEq, Eq, Structural)]
pub struct TextureDesc {
    pub format: TextureFormat,
    /// The texture can be sampled by shaders.
    pub sampler: bool,
    /// The texture can be rendered to, as mipmap generation needs.
    pub color_target: bool,
    pub width: u32,
    pub height: u32,
    pub layer_count_or_depth: u32,
    pub num_levels: u32,
}

/// How an image is turned into a device texture.
#[derive(Clone, Copy, Debug, PartialEq, Eq, Structural)]
pub struct TexturePlan {
    pub desc: TextureDesc,
    /// The pixels are converted to 8-bit RGBA before they are staged.
    pub convert: bool,
}

/// The plan for a `width` by `height` image in layout `p`.
pub open spec fn texture_plan_spec(p: PixelFormat, width: u32, height: u32, generate_mipmaps: bool) -> TexturePlan {
    TexturePlan {
        desc: TextureDesc {
            format: format_mapping(p).1,
            sampler: true,
            color_target: generate_mipmaps,
            width,
            height,
            layer_count_or_depth: 1,
            num_levels: if generate_mipmaps {
                mip_levels(width, height) as u32
            } else {
                1
            },
        },
        convert: format_mapping(p).0,
    }
}

/// Plans the texture for an image: the format it uploads as, whether it is
/// converted first, and, where mipmaps are generated, a full mip chain and
/// render-target usage besides sampling.
pub fn texture_plan(p: PixelFormat, width: u32, height: u32, generate_mipmaps: bool) -> (r: TexturePlan)
    requires
        generate_mipmaps ==> (width > 0 || height > 0),
    ensures
        r == texture_plan_spec(p, width, height, generate_mipmaps),
{
    let (convert, format) = texture_format_for(p);
    let num_levels = if generate_mipmaps {
        mip_level_count(width, height)
    } else {
        1
    };
    TexturePlan {
        desc: TextureDesc {
            format,
            sampler: true,
            color_target: generate_mipmaps,
            width,
            height,
            layer_count_or_depth: 1,
            num_levels,
        },
        convert,
    }
}

} // verus!
