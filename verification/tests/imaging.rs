use svc_texture::process::imaging::Filter;
use image::GenericImageView;
use svc_texture::process::bcn::{
    compress_bc1_2d, compress_bc3_2d, compress_bc6h_2d, compress_bc7_2d, compress_bc7_ultra_fast_2d,
    d3d_format_from_index, get_bc6h_settings, get_bc7_settings, get_dds_format, is_pitch_arithmetic_fitting, read_dds_result, D3dFormat, is_bcn_format, is_dds_format_handled, Bc6hQuality, Bc7Quality, DdsInfo,
};
use svc_texture::process::calculate_mip_count;
use svc_texture::process::mips::generate_mips;
use svc_texture::schema::TextureFormat;

fn gradient(width: u32, height: u32) -> image::DynamicImage {
    let mut img = image::RgbaImage::new(width, height);
    for (x, y, p) in img.enumerate_pixels_mut() {
        *p = image::Rgba([(x * 16) as u8, (y * 16) as u8, 128, 255]);
    }
    image::DynamicImage::ImageRgba8(img)
}

#[test]
fn mip_chain_without_minimum() {
    let mips = generate_mips(gradient(16, 8), Filter::Triangle, None);
    let sizes: Vec<(u32, u32)> = mips.iter().map(|m| m.dimensions()).collect();
    assert_eq!(sizes, vec![(16, 8), (8, 4), (4, 2), (2, 1), (0, 0)]);
}

#[test]
fn mip_chain_stops_at_minimum() {
    let mips = generate_mips(gradient(16, 8), Filter::Lanczos3, Some((4, 4)));
    let sizes: Vec<(u32, u32)> = mips.iter().map(|m| m.dimensions()).collect();
    assert_eq!(sizes, vec![(16, 8), (8, 4)]);
    let mips = generate_mips(gradient(32, 32), Filter::Nearest, Some((4, 4)));
    assert_eq!(mips.len(), 4);
}

#[test]
fn compressing_no_levels_gives_nothing() {
    assert_eq!(compress_bc1_2d(&Vec::new()), Some(Vec::new()));
    assert_eq!(compress_bc7_2d(&Vec::new(), Bc7Quality::Fast), Some(Vec::new()));
}

fn dds_payload_after_header(bytes: &[u8]) -> &[u8] {
    // Magic number, header, extended header.
    assert_eq!(&bytes[0..4], b"DDS ");
    &bytes[4 + 124 + 20..]
}

#[test]
fn bc1_chain_is_laid_out_level_after_level() {
    let mips = generate_mips(gradient(8, 8), Filter::Triangle, None);
    assert_eq!(mips.len(), 4);
    let bytes = compress_bc1_2d(&mips).expect("a BC1 surface");
    let payload = dds_payload_after_header(&bytes);
    let mut expected = Vec::new();
    for m in &mips {
        let rgba = m.to_rgba();
        let (w, h) = rgba.dimensions();
        let surface = intel_tex::RgbaSurface { data: &rgba, width: w, height: h, stride: w * 4 };
        expected.extend(intel_tex::bc1::compress_blocks(&surface));
    }
    assert_eq!(expected.len(), 32 + 8 + 8 + 8);
    assert_eq!(&payload[..expected.len()], &expected[..]);
    assert!(payload[expected.len()..].iter().all(|b| *b == 0));
}

#[test]
fn bc3_bc6h_bc7_chains_hold_every_level() {
    let mips = generate_mips(gradient(16, 16), Filter::Triangle, Some((4, 4)));
    assert_eq!(mips.len(), 3);
    let expected = 256 + 64 + 16;
    let bc3 = compress_bc3_2d(&mips).expect("a BC3 surface");
    assert!(dds_payload_after_header(&bc3).len() >= expected);
    let bc6h = compress_bc6h_2d(&mips, Bc6hQuality::VeryFast).expect("a BC6H surface");
    assert!(dds_payload_after_header(&bc6h).len() >= expected);
    let bc7 = compress_bc7_2d(&mips, Bc7Quality::UltraFast).expect("a BC7 surface");
    assert!(dds_payload_after_header(&bc7).len() >= expected);
}

fn u32_at(bytes: &[u8], at: usize) -> u32 {
    u32::from_le_bytes([bytes[at], bytes[at + 1], bytes[at + 2], bytes[at + 3]])
}

#[test]
fn headers_declare_size_levels_format_and_alpha() {
    let mips = generate_mips(gradient(16, 8), Filter::Triangle, Some((4, 4)));
    let bytes = compress_bc1_2d(&mips).expect("a BC1 surface");
    assert_eq!(u32_at(&bytes, 12), 8); // height
    assert_eq!(u32_at(&bytes, 16), 16); // width
    assert_eq!(u32_at(&bytes, 28), 2); // levels
    assert_eq!(u32_at(&bytes, 128), 71); // BC1_UNorm
    assert_eq!(u32_at(&bytes, 140), 1); // one layer
    assert_eq!(u32_at(&bytes, 144), 3); // opaque
    let bc3 = compress_bc3_2d(&mips).expect("a BC3 surface");
    assert_eq!(u32_at(&bc3, 128), 77);
    let bc6h = compress_bc6h_2d(&mips, Bc6hQuality::Basic).expect("a BC6H surface");
    assert_eq!(u32_at(&bc6h, 128), 96);
    let bc7 = compress_bc7_2d(&mips, Bc7Quality::Basic).expect("a BC7 surface");
    assert_eq!(u32_at(&bc7, 128), 98);
    assert_eq!(u32_at(&bc7, 144), 1); // straight alpha: the gradient is RGBA
    let opaque = compress_bc7_ultra_fast_2d(&mips, false).expect("a BC7 surface");
    assert_eq!(u32_at(&opaque, 144), 3);
}

#[test]
fn encoded_formats_read_back() {
    let mips = generate_mips(gradient(8, 8), Filter::Triangle, None);
    let cases = vec![
        (compress_bc1_2d(&mips).unwrap(), TextureFormat::BC1_UNORM),
        (compress_bc3_2d(&mips).unwrap(), TextureFormat::BC3_UNORM),
        (compress_bc6h_2d(&mips, Bc6hQuality::VeryFast).unwrap(), TextureFormat::BC6S_FLOAT),
        (compress_bc7_2d(&mips, Bc7Quality::VeryFast).unwrap(), TextureFormat::BC7_UNORM),
    ];
    for (bytes, format) in cases {
        let dds = ddsfile::Dds::read(&mut std::io::Cursor::new(&bytes)).expect("a DDS file");
        let info = DdsInfo {
            dxgi_format: dds.get_dxgi_format().map(|f| f as u32),
            d3d_format: None,
            pitch: dds.get_pitch(),
            is_volume: false,
            is_cubemap: false,
            width: dds.get_width(),
            height: dds.get_height(),
            depth: dds.get_depth(),
            mip_levels: dds.get_num_mipmap_levels(),
            array_layers: dds.get_num_array_layers(),
        };
        assert!(is_dds_format_handled(&info));
        assert_eq!(get_dds_format(&info), format);
        assert!(is_bcn_format(format));
    }
}

#[test]
fn chains_stay_within_the_full_chain() {
    for (w, h) in [(16u32, 8u32), (32, 32), (5, 3), (1, 1)] {
        let full = calculate_mip_count(w, h) as usize;
        assert_eq!(generate_mips(gradient(w, h), Filter::Triangle, None).len(), full);
        let bounded = generate_mips(gradient(w, h), Filter::Triangle, Some((2, 2))).len();
        assert!(1 <= bounded && bounded <= full);
    }
}

#[test]
fn levels_that_overflow_the_layer_are_refused() {
    // 20 x 4 down to 5 x 1: the encoders write 40 + 16 + 8 bytes of BC1 blocks, the layer
    // that ddsfile lays out holds 40 + 10 + 8.
    let mips = generate_mips(gradient(20, 4), Filter::Triangle, Some((1, 1)));
    let sizes: Vec<(u32, u32)> = mips.iter().map(|m| m.dimensions()).collect();
    assert_eq!(sizes, vec![(20, 4), (10, 2), (5, 1)]);
    assert_eq!(compress_bc1_2d(&mips), None);
    let top = generate_mips(gradient(20, 4), Filter::Triangle, Some((4, 4)));
    assert!(compress_bc1_2d(&top).is_some());
}

#[test]
fn encoder_presets_hold_the_crate_values() {
    let cases6 = [
        (Bc6hQuality::VeryFast, intel_tex::bc6h::very_fast_settings()),
        (Bc6hQuality::Basic, intel_tex::bc6h::basic_settings()),
        (Bc6hQuality::Slow, intel_tex::bc6h::slow_settings()),
        (Bc6hQuality::VerySlow, intel_tex::bc6h::very_slow_settings()),
    ];
    for (quality, expected) in cases6 {
        let s = get_bc6h_settings(quality);
        assert_eq!(
            (s.slow_mode, s.fast_mode, s.refine_iterations_1p, s.refine_iterations_2p, s.fast_skip_threshold),
            (
                expected.slow_mode,
                expected.fast_mode,
                expected.refine_iterations_1p,
                expected.refine_iterations_2p,
                expected.fast_skip_threshold
            )
        );
    }
    let s = get_bc6h_settings(Bc6hQuality::Slow);
    assert_eq!(s.fast_skip_threshold, 10);
    let cases7 = [
        (Bc7Quality::UltraFast, true, intel_tex::bc7::alpha_ultra_fast_settings()),
        (Bc7Quality::Fast, true, intel_tex::bc7::alpha_fast_settings()),
        (Bc7Quality::Slow, true, intel_tex::bc7::alpha_slow_settings()),
        (Bc7Quality::VeryFast, false, intel_tex::bc7::opaque_very_fast_settings()),
        (Bc7Quality::Basic, false, intel_tex::bc7::opaque_basic_settings()),
    ];
    for (quality, alpha, expected) in cases7 {
        let s = get_bc7_settings(quality, alpha);
        assert_eq!(s.mode_selection, expected.mode_selection);
        assert_eq!(s.refine_iterations, expected.refine_iterations);
        assert_eq!(s.skip_mode2, expected.skip_mode2);
        assert_eq!(
            (s.fast_skip_threshold_mode1, s.fast_skip_threshold_mode3, s.fast_skip_threshold_mode7),
            (
                expected.fast_skip_threshold_mode1,
                expected.fast_skip_threshold_mode3,
                expected.fast_skip_threshold_mode7
            )
        );
        assert_eq!(
            (s.mode45_channel0, s.refine_iterations_channel, s.channels),
            (expected.mode45_channel0, expected.refine_iterations_channel, expected.channels)
        );
    }
    assert_eq!(get_bc7_settings(Bc7Quality::UltraFast, false).channels, 3);
}

#[test]
fn each_level_is_the_previous_one_resized_with_the_filter() {
    let top = gradient(16, 8);
    let mips = generate_mips(top.clone(), Filter::CatmullRom, None);
    for i in 1..mips.len() {
        let expected = mips[i - 1].resize(16 >> i, 8 >> i, image::FilterType::CatmullRom);
        assert_eq!(mips[i].raw_pixels(), expected.raw_pixels());
        assert_eq!(mips[i].dimensions(), expected.dimensions());
    }
    let other = generate_mips(top, Filter::Nearest, None);
    assert_ne!(mips[1].raw_pixels(), other[1].raw_pixels());
}

#[test]
fn compressed_files_read_back() {
    let mips = generate_mips(gradient(16, 16), Filter::Triangle, None);
    let bytes = compress_bc1_2d(&mips).unwrap();
    let (desc, data) = read_dds_result(&bytes).expect("a described surface");
    assert_eq!(desc.format, TextureFormat::BC1_UNORM);
    assert_eq!(desc.type_, svc_texture::schema::TextureType::Tex2d);
    // The header holds the level count, but `ddsfile` writes no MIPMAPCOUNT flag, so reading
    // the file back takes it as one level.
    assert_eq!(u32_at(&bytes, 28), 5);
    assert_eq!((desc.width, desc.height, desc.levels, desc.elements), (16, 16, 1, 1));
    // Nor does it write a DEPTH flag: the depth reads back as one.
    assert_eq!(desc.depth, 1);
    assert_eq!(u32_at(&bytes, 8), 0x0008_1007);
    assert_eq!(data, bytes[148..].to_vec());
    // The layer holds exactly the levels' blocks: 16 + 4 + 1 + 1 + 1 blocks of 8 bytes.
    assert_eq!(bytes.len(), 148 + 23 * 8);
    let bc7 = compress_bc7_2d(&mips, Bc7Quality::Basic).unwrap();
    assert_eq!(read_dds_result(&bc7).unwrap().0.format, TextureFormat::BC7_UNORM);
}

#[test]
fn unreadable_files_are_refused() {
    assert!(read_dds_result(b"not a dds file").is_none());
    assert!(read_dds_result(&[]).is_none());
}

fn with_u32_at(bytes: &[u8], at: usize, value: u32) -> Vec<u8> {
    let mut patched = bytes.to_vec();
    patched[at..at + 4].copy_from_slice(&value.to_le_bytes());
    patched
}

#[test]
fn widths_beyond_the_pitch_arithmetic_are_refused() {
    let mips = generate_mips(gradient(4, 4), Filter::Triangle, None);
    let bytes = compress_bc7_2d(&mips, Bc7Quality::UltraFast).unwrap();
    assert!(is_pitch_arithmetic_fitting(&bytes));
    let widest = with_u32_at(&bytes, 16, 0x01FF_FFFF);
    assert!(is_pitch_arithmetic_fitting(&widest));
    assert_eq!(read_dds_result(&widest).unwrap().0.width, 0x01FF_FFFF);
    let too_wide = with_u32_at(&bytes, 16, 0x0200_0000);
    assert!(!is_pitch_arithmetic_fitting(&too_wide));
    assert!(read_dds_result(&too_wide).is_none());
    let overflowing = with_u32_at(&bytes, 16, 0xFFFF_FFFF);
    assert!(read_dds_result(&overflowing).is_none());
}

#[test]
fn rgb_bit_counts_beyond_the_pitch_arithmetic_are_refused() {
    let mips = generate_mips(gradient(4, 4), Filter::Triangle, None);
    let bytes = compress_bc7_2d(&mips, Bc7Quality::UltraFast).unwrap();
    // Pixel format flags: four-character code and RGB; bit count times width, plus 7.
    let rgb = with_u32_at(&bytes, 80, 0x44);
    let fits = with_u32_at(&with_u32_at(&rgb, 88, 0x1000_0000), 16, 15);
    assert!(is_pitch_arithmetic_fitting(&fits));
    let beyond = with_u32_at(&with_u32_at(&rgb, 88, 0x1000_0000), 16, 16);
    assert!(!is_pitch_arithmetic_fitting(&beyond));
    assert!(read_dds_result(&beyond).is_none());
    // Luminance data counts too; without either flag the bit count is not read.
    let luminance = with_u32_at(&with_u32_at(&with_u32_at(&bytes, 80, 0x2_0004), 88, 0xFFFF_FFFF), 16, 2);
    assert!(!is_pitch_arithmetic_fitting(&luminance));
    let unread = with_u32_at(&with_u32_at(&bytes, 88, 0xFFFF_FFFF), 16, 2);
    assert!(is_pitch_arithmetic_fitting(&unread));
    // Files too short to hold the headers are never read that far.
    assert!(is_pitch_arithmetic_fitting(&bytes[..127]));
}

#[test]
fn legacy_formats_by_place() {
    assert_eq!(d3d_format_from_index(0), Some(D3dFormat::A8B8G8R8));
    assert_eq!(d3d_format_from_index(31), Some(D3dFormat::A32B32G32R32F));
    assert_eq!(d3d_format_from_index(36), Some(D3dFormat::CXV8U8));
    assert_eq!(d3d_format_from_index(37), None);
    assert_eq!(ddsfile::D3DFormat::A32B32G32R32F as u32, 31);
}
