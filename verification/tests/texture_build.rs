use svc_texture::process::imaging::Filter;
use image::GenericImageView;
use svc_texture::compile::texture::{compile_texture, MIN_MIP_HEIGHT, MIN_MIP_WIDTH};
use svc_texture::process::bcn::{compress_bc7_ultra_fast_2d, is_chain_encodable, is_encodable_extent, is_surface_fitting, DdsBlockFormat};
use svc_texture::process::mips::{generate_mips, is_chain_resizable, try_generate_mips};
use svc_texture::utilities::compute_identity;

fn gradient(width: u32, height: u32) -> image::DynamicImage {
    let mut img = image::RgbaImage::new(width, height);
    for (x, y, p) in img.enumerate_pixels_mut() {
        *p = image::Rgba([(x * 16) as u8, (y * 16) as u8, 128, 255]);
    }
    image::DynamicImage::ImageRgba8(img)
}

fn gray(width: u32, height: u32) -> image::DynamicImage {
    image::DynamicImage::ImageLuma8(image::GrayImage::new(width, height))
}

#[test]
fn a_chain_that_resizes_an_empty_level_is_refused() {
    // 16 x 1: the first halving asks for no rows, the next level has nothing to resize.
    assert!(try_generate_mips(gradient(16, 1), Filter::Triangle, None).is_none());
    // With a minimum size the chain stops before that level.
    let chain = try_generate_mips(gradient(16, 1), Filter::Triangle, Some((1, 1)))
        .expect("a chain");
    assert_eq!(chain.len(), 1);
}

#[test]
fn a_chain_may_go_through_levels_without_rows() {
    // 5 x 2: the first halving gives 2 x 0, which still resizes to 1 x 0.
    let chain = try_generate_mips(gradient(5, 2), Filter::Triangle, None).expect("a chain");
    let sizes: Vec<(u32, u32)> = chain.iter().map(|m| m.dimensions()).collect();
    assert_eq!(sizes, vec![(5, 2), (2, 0), (1, 0)]);
    // 2 x 5: the first halving gives 0 x 2, which cannot be fitted in no columns.
    assert!(try_generate_mips(gradient(2, 5), Filter::Triangle, None).is_none());
}

#[test]
fn a_resizable_chain_is_the_generated_one() {
    let tried = try_generate_mips(gradient(16, 8), Filter::Triangle, None).expect("a chain");
    let made = generate_mips(gradient(16, 8), Filter::Triangle, None);
    let tried_sizes: Vec<(u32, u32)> = tried.iter().map(|m| m.dimensions()).collect();
    let made_sizes: Vec<(u32, u32)> = made.iter().map(|m| m.dimensions()).collect();
    assert_eq!(tried_sizes, made_sizes);
}

#[test]
fn extents_that_the_encoders_take() {
    assert!(is_encodable_extent(0, 0));
    assert!(is_encodable_extent(1, 1));
    assert!(is_encodable_extent(4096, 4096));
    assert!(!is_encodable_extent(65536, 65536));
    assert!(!is_encodable_extent(0x2000_0000, 1));
    assert!(!is_encodable_extent(1, 0x8000_0000));
}

#[test]
fn small_chains_are_encodable() {
    let chain = generate_mips(gradient(32, 32), Filter::Triangle, None);
    assert!(is_chain_encodable(&chain));
    assert!(is_chain_encodable(&Vec::new()));
}

#[test]
fn a_built_texture_is_a_bc7_dds_file_named_by_its_identity() {
    assert_eq!((MIN_MIP_WIDTH, MIN_MIP_HEIGHT), (4, 4));
    let texture = compile_texture(gradient(16, 16)).expect("a texture");
    assert_eq!(&texture.data[0..4], b"DDS ");
    // DXGI format code of the extended header: BC7_UNorm is 98.
    assert_eq!(&texture.data[128..132], &98u32.to_le_bytes());
    // Levels of 16, 8 and 4 texels: 16 + 4 + 1 blocks of 16 bytes.
    assert!(texture.data.len() >= 4 + 124 + 20 + 21 * 16);
    assert_eq!(texture.identity, compute_identity(&texture.data));
}

#[test]
fn gray_and_tiny_images_build_too() {
    let texture = compile_texture(gray(8, 8)).expect("a texture");
    assert_eq!(texture.identity, compute_identity(&texture.data));
    let texture = compile_texture(gradient(1, 1)).expect("a texture");
    assert_eq!(texture.identity, compute_identity(&texture.data));
    let wide = compile_texture(gradient(64, 2)).expect("a texture");
    assert_eq!(wide.identity, compute_identity(&wide.data));
}

#[test]
fn surfaces_that_fit_in_32_bits() {
    assert!(is_surface_fitting(16, 16, 5, DdsBlockFormat::Bc1Unorm));
    assert!(is_surface_fitting(0, 0, 1, DdsBlockFormat::Bc7Unorm));
    assert!(is_surface_fitting(4096, 4096, 13, DdsBlockFormat::Bc7Unorm));
    // The header's linear size, pitch times height, overflows.
    assert!(!is_surface_fitting(65535, 65535, 1, DdsBlockFormat::Bc7Unorm));
    assert!(!is_surface_fitting(32768, 32768, 16, DdsBlockFormat::Bc6hSf16));
    assert!(is_surface_fitting(16384, 16384, 15, DdsBlockFormat::Bc1Unorm));
    // Rounding a side up to whole blocks overflows.
    assert!(!is_surface_fitting(0xFFFF_FFFD, 1, 1, DdsBlockFormat::Bc1Unorm));
    assert!(!is_surface_fitting(1, 0xFFFF_FFFF, 1, DdsBlockFormat::Bc3Unorm));
    // The pitch alone overflows, though a surface of no rows has no linear size.
    assert!(!is_surface_fitting(0x4000_0000, 0, 1, DdsBlockFormat::Bc7Unorm));
    assert!(is_surface_fitting(0x3FFF_FFF0, 0, 1, DdsBlockFormat::Bc1Unorm));
}

#[test]
fn chain_resizability_is_tested_ahead() {
    // A single row: the second level asks for a width of 8 and a height of 0.
    assert!(!is_chain_resizable(16, 1, None));
    assert!(is_chain_resizable(16, 1, Some((1, 1))));
    assert!(is_chain_resizable(5, 2, None));
    assert!(!is_chain_resizable(2, 5, None));
    assert!(is_chain_resizable(16, 8, None));
    assert!(is_chain_resizable(0, 0, None));
}

#[test]
fn a_build_is_the_lanczos_chain_encoded_with_the_ultra_fast_preset() {
    let img = gradient(32, 16);
    let texture = compile_texture(img.clone()).expect("a texture");
    let mips = generate_mips(img, Filter::Lanczos3, Some((MIN_MIP_WIDTH, MIN_MIP_HEIGHT)));
    let expected = compress_bc7_ultra_fast_2d(&mips, true).expect("a surface");
    assert_eq!(texture.data, expected);
}

#[test]
fn identities_are_never_empty() {
    assert!(!compute_identity(b"").is_empty());
    assert_ne!(compute_identity(b"a"), compute_identity(b"b"));
}
