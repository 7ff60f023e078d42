use nehe::texture::{mip_level_count, texture_format_for, texture_plan, PixelFormat, TextureFormat};

#[test]
fn mipmap_level_count_256_by_64() {
    assert_eq!(mip_level_count(256, 64), 9);
    let plan = texture_plan(PixelFormat::Rgba32, 256, 64, true);
    assert_eq!(plan.desc.num_levels, 9);
    assert!(plan.desc.color_target);
    assert!(plan.desc.sampler);
}

#[test]
fn mipmap_level_count_edges() {
    assert_eq!(mip_level_count(1, 1), 1);
    assert_eq!(mip_level_count(0, 1), 1);
    assert_eq!(mip_level_count(3, 2), 2);
    assert_eq!(mip_level_count(64, 255), 8);
    assert_eq!(mip_level_count(u32::MAX, 1), 32);
}

#[test]
fn texture_without_mipmaps_has_one_level() {
    let plan = texture_plan(PixelFormat::Bgra32, 256, 64, false);
    assert_eq!(plan.desc.num_levels, 1);
    assert!(!plan.desc.color_target);
    assert!(plan.desc.sampler);
    assert_eq!(plan.desc.format, TextureFormat::B8G8R8A8Unorm);
    assert_eq!((plan.desc.width, plan.desc.height, plan.desc.layer_count_or_depth), (256, 64, 1));
    assert!(!plan.convert);
}

#[test]
fn listed_formats_pass_through() {
    let cases = [
        (PixelFormat::Rgba32, TextureFormat::R8G8B8A8Unorm),
        (PixelFormat::Rgba64, TextureFormat::R16G16B16A16Unorm),
        (PixelFormat::Rgb565, TextureFormat::B5G6R5Unorm),
        (PixelFormat::Argb1555, TextureFormat::B5G5R5A1Unorm),
        (PixelFormat::Bgra4444, TextureFormat::B4G4R4A4Unorm),
        (PixelFormat::Bgra32, TextureFormat::B8G8R8A8Unorm),
        (PixelFormat::Rgba64Float, TextureFormat::R16G16B16A16Float),
        (PixelFormat::Rgba128Float, TextureFormat::R32G32B32A32Float),
    ];
    for (p, t) in cases {
        assert_eq!(texture_format_for(p), (false, t));
    }
}

#[test]
fn unlisted_format_is_converted_to_rgba8() {
    assert_eq!(texture_format_for(PixelFormat::Other(0x16161804)), (true, TextureFormat::R8G8B8A8Unorm));
    let plan = texture_plan(PixelFormat::Other(7), 16, 16, false);
    assert!(plan.convert);
    assert_eq!(plan.desc.format, TextureFormat::R8G8B8A8Unorm);
}
