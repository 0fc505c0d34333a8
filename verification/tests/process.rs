use svc_texture::process::bcn::{
    extract_dds_result, get_dds_format, guess_format, is_bcn_format, is_dds_describable,
    is_dds_format_handled, D3dFormat, DdsInfo,
};
use svc_texture::process::{alpha_format, calculate_mip_count, ColorType};
use svc_texture::schema::{TextureFormat, TextureType};

#[test]
fn mip_count_of_square_textures() {
    assert_eq!(calculate_mip_count(1, 1), 1);
    assert_eq!(calculate_mip_count(2, 2), 2);
    assert_eq!(calculate_mip_count(256, 256), 9);
    assert_eq!(calculate_mip_count(1024, 1024), 11);
}

#[test]
fn mip_count_uses_the_larger_side() {
    assert_eq!(calculate_mip_count(256, 1), 9);
    assert_eq!(calculate_mip_count(3, 255), 8);
    assert_eq!(calculate_mip_count(1024, 512), 11);
    assert_eq!(calculate_mip_count(u32::MAX, 1), 32);
}

#[test]
fn mip_count_of_an_empty_texture() {
    assert_eq!(calculate_mip_count(0, 0), 1);
}

#[test]
fn alpha_of_color_types() {
    assert!(!alpha_format(ColorType::Gray(8)));
    assert!(alpha_format(ColorType::GrayA(8)));
    assert!(!alpha_format(ColorType::RGB(8)));
    assert!(alpha_format(ColorType::RGBA(16)));
    assert!(alpha_format(ColorType::BGRA(8)));
    assert!(!alpha_format(ColorType::BGR(8)));
}

#[test]
fn guessed_formats() {
    assert_eq!(guess_format(ColorType::Gray(8)), (TextureFormat::BC4_UNORM, false));
    assert_eq!(guess_format(ColorType::GrayA(8)), (TextureFormat::BC4_UNORM, true));
    assert_eq!(guess_format(ColorType::RGB(8)), (TextureFormat::BC7_UNORM, false));
    assert_eq!(guess_format(ColorType::RGBA(8)), (TextureFormat::BC7_UNORM, true));
    assert_eq!(guess_format(ColorType::BGRA(8)), (TextureFormat::BC7_UNORM, true));
    assert_eq!(guess_format(ColorType::BGR(8)), (TextureFormat::BC1_UNORM, false));
}

#[test]
fn guessed_alpha_agrees_with_alpha_format() {
    for c in [ColorType::Gray(8), ColorType::GrayA(8), ColorType::RGB(8), ColorType::RGBA(8), ColorType::BGR(8), ColorType::BGRA(8)] {
        let (format, alpha) = guess_format(c);
        assert!(is_bcn_format(format));
        assert_eq!(alpha, alpha_format(c));
    }
}

#[test]
fn bcn_formats() {
    assert!(is_bcn_format(TextureFormat::BC1_UNORM));
    assert!(is_bcn_format(TextureFormat::BC5_SNORM));
    assert!(is_bcn_format(TextureFormat::BC7_SRGB));
    assert!(!is_bcn_format(TextureFormat::R8G8B8A8_UNORM));
    assert!(!is_bcn_format(TextureFormat::ASTC_4x4_UNORM));
    assert!(!is_bcn_format(TextureFormat::UNKNOWN));
}

fn dds_info(dxgi: Option<u32>, d3d: Option<D3dFormat>) -> DdsInfo {
    DdsInfo {
        dxgi_format: dxgi,
        d3d_format: d3d,
        pitch: Some(64),
        is_volume: false,
        is_cubemap: false,
        width: 16,
        height: 16,
        depth: 1,
        mip_levels: 5,
        array_layers: 1,
    }
}

#[test]
fn dds_formats_from_dxgi_codes() {
    assert_eq!(get_dds_format(&dds_info(Some(71), None)), TextureFormat::BC1_UNORM);
    assert_eq!(get_dds_format(&dds_info(Some(29), None)), TextureFormat::R8G8B8A8_SRGB);
    assert_eq!(get_dds_format(&dds_info(Some(96), None)), TextureFormat::BC6S_FLOAT);
    assert_eq!(get_dds_format(&dds_info(Some(99), None)), TextureFormat::BC7_SRGB);
    assert_eq!(get_dds_format(&dds_info(Some(0), None)), TextureFormat::UNKNOWN);
}

#[test]
fn dds_formats_from_legacy_formats() {
    assert_eq!(
        get_dds_format(&dds_info(None, Some(D3dFormat::A32B32G32R32F))),
        TextureFormat::R32G32B32A32_FLOAT
    );
    assert_eq!(get_dds_format(&dds_info(None, Some(D3dFormat::G32R32F))), TextureFormat::R32G32_FLOAT);
    assert_eq!(get_dds_format(&dds_info(None, None)), TextureFormat::UNKNOWN);
}

#[test]
fn dds_description_of_a_2d_texture() {
    let info = dds_info(Some(98), None);
    let data = vec![1u8, 2, 3];
    let (desc, copy) = extract_dds_result(&info, &data);
    assert_eq!(desc.type_, TextureType::Tex2d);
    assert_eq!(desc.format, TextureFormat::BC7_UNORM);
    assert_eq!((desc.width, desc.height, desc.depth, desc.levels, desc.elements), (16, 16, 1, 5, 1));
    assert_eq!(copy, data);
}

#[test]
fn dds_texture_shapes() {
    let data = Vec::new();
    let mut info = dds_info(Some(71), None);
    info.array_layers = 6;
    assert_eq!(extract_dds_result(&info, &data).0.type_, TextureType::Tex2dArray);
    info.is_cubemap = true;
    assert_eq!(extract_dds_result(&info, &data).0.type_, TextureType::Cube);
    info.is_volume = true;
    assert_eq!(extract_dds_result(&info, &data).0.type_, TextureType::Tex3d);
    let mut line = dds_info(Some(71), None);
    line.height = 1;
    assert_eq!(extract_dds_result(&line, &data).0.type_, TextureType::Tex1dArray);
    line.array_layers = 2;
    assert_eq!(extract_dds_result(&line, &data).0.type_, TextureType::Tex1dArray);
}

#[test]
fn dds_surfaces_that_can_be_described() {
    assert!(is_dds_format_handled(&dds_info(Some(98), None)));
    assert!(is_dds_format_handled(&dds_info(None, Some(D3dFormat::G32R32F))));
    assert!(is_dds_format_handled(&dds_info(None, None)));
    assert!(!is_dds_format_handled(&dds_info(Some(1), None)));
    assert!(!is_dds_format_handled(&dds_info(Some(87), None)));
    assert!(!is_dds_format_handled(&dds_info(None, Some(D3dFormat::DXT1))));
    assert!(is_dds_describable(&dds_info(Some(71), None)));
    let mut no_pitch = dds_info(Some(71), None);
    no_pitch.pitch = None;
    assert!(!is_dds_describable(&no_pitch));
    assert!(!is_dds_describable(&dds_info(Some(3), None)));
}
