use svc_texture::schema::TextureFormat;
use svc_texture::utilities::{
    compute_build_identity, compute_identity, get_texture_format_info, get_texture_layout_info,
    string_from_path, TextureFormatInfo, TextureLayoutInfo,
};

#[test]
fn format_info_of_uncompressed_formats() {
    let info = get_texture_format_info(TextureFormat::R8G8B8A8_UNORM);
    assert_eq!(
        info,
        TextureFormatInfo {
            block_width: 1,
            block_height: 1,
            block_bits: 32,
            red_bits: 8,
            green_bits: 8,
            blue_bits: 8,
            alpha_bits: 8,
            depth_bits: 0,
            stencil_bits: 0,
            padding_bits: 0,
            exponent_bits: 0,
        }
    );
    let info = get_texture_format_info(TextureFormat::D32_FLOAT_S8_UINT);
    assert_eq!((info.depth_bits, info.stencil_bits, info.padding_bits), (32, 8, 24));
    assert_eq!(info.block_bits, 64);
    let info = get_texture_format_info(TextureFormat::R9G9B9E5_FLOAT);
    assert_eq!(info.block_bits, 32);
    assert_eq!(info.exponent_bits, 5);
    // The table gives this format a six-bit green channel.
    let info = get_texture_format_info(TextureFormat::R5G5B5A1_UNORM);
    assert_eq!((info.red_bits, info.green_bits, info.blue_bits, info.alpha_bits), (5, 6, 5, 1));
    assert_eq!(info.block_bits, 17);
    let info = get_texture_format_info(TextureFormat::B8G8R8A8_SRGB);
    assert_eq!(info.block_bits, 32);
}

#[test]
fn format_info_of_compressed_formats() {
    for format in [TextureFormat::BC1_UNORM, TextureFormat::BC1A_SRGB, TextureFormat::BC4_UNORM] {
        let info = get_texture_format_info(format);
        assert_eq!((info.block_width, info.block_height, info.block_bits), (4, 4, 64));
        assert_eq!(info.red_bits, 0);
    }
    for format in [
        TextureFormat::BC2_UNORM,
        TextureFormat::BC3_SRGB,
        TextureFormat::BC5_UNORM,
        TextureFormat::BC6S_FLOAT,
        TextureFormat::BC7_UNORM,
    ] {
        let info = get_texture_format_info(format);
        assert_eq!((info.block_width, info.block_height, info.block_bits), (4, 4, 128));
    }
}

#[test]
fn layout_of_a_compressed_texture() {
    let layout = get_texture_layout_info(TextureFormat::BC1_UNORM, 256, 256);
    assert_eq!(layout, TextureLayoutInfo { pitch: 512, slice_pitch: 32768 });
    let layout = get_texture_layout_info(TextureFormat::BC7_UNORM, 256, 128);
    assert_eq!(layout, TextureLayoutInfo { pitch: 1024, slice_pitch: 32768 });
}

#[test]
fn layout_grows_with_the_size() {
    for format in [TextureFormat::BC1_UNORM, TextureFormat::BC7_UNORM, TextureFormat::R8G8B8A8_UNORM] {
        let small = get_texture_layout_info(format, 5, 3);
        let large = get_texture_layout_info(format, 9, 17);
        assert!(small.pitch > 0 && small.pitch <= small.slice_pitch);
        assert!(small.pitch <= large.pitch && small.slice_pitch <= large.slice_pitch);
    }
    let narrow = get_texture_layout_info(TextureFormat::BC1_UNORM, 4, 64);
    let wide = get_texture_layout_info(TextureFormat::BC1_UNORM, 64, 64);
    assert_eq!((narrow.pitch, narrow.slice_pitch), (8, 128));
    assert_eq!((wide.pitch, wide.slice_pitch), (128, 2048));
}

#[test]
fn layout_takes_at_least_one_block() {
    let layout = get_texture_layout_info(TextureFormat::BC1_UNORM, 1, 1);
    assert_eq!(layout, TextureLayoutInfo { pitch: 8, slice_pitch: 8 });
    let layout = get_texture_layout_info(TextureFormat::R8G8B8A8_UNORM, 0, 0);
    assert_eq!(layout, TextureLayoutInfo { pitch: 4, slice_pitch: 4 });
}

#[test]
fn layout_of_an_uncompressed_texture() {
    let layout = get_texture_layout_info(TextureFormat::R8G8B8A8_UNORM, 3, 5);
    assert_eq!(layout, TextureLayoutInfo { pitch: 12, slice_pitch: 60 });
    let layout = get_texture_layout_info(TextureFormat::R5G6B5_UNORM, 10, 2);
    assert_eq!(layout, TextureLayoutInfo { pitch: 20, slice_pitch: 40 });
    let layout = get_texture_layout_info(TextureFormat::R5G5B5A1_UNORM, 8, 1);
    assert_eq!(layout, TextureLayoutInfo { pitch: 17, slice_pitch: 17 });
}

#[test]
fn slice_pitch_is_at_least_pitch() {
    for (w, h) in [(0, 0), (1, 9), (7, 3), (64, 1)] {
        let layout = get_texture_layout_info(TextureFormat::BC3_UNORM, w, h);
        assert!(layout.slice_pitch >= layout.pitch);
    }
}

#[test]
fn identity_of_known_data() {
    assert_eq!(compute_identity(b""), "GKot5hBsd81kMupNCXHaqbhv3huEbxAFMLnpcX2hniwn");
    assert_eq!(compute_identity(b"hello world"), "DULfJyE3WQqNxy3ymuhAChyNR3yufT88pmqvAazKFMG4");
    assert_eq!(compute_identity(&[0, 0, 1]), "ExqmskjGjK37qrihoUfFeUXexB4gRKEPnrxiDMmsgRFd");
}

#[test]
fn identity_uses_only_base58_characters() {
    let alphabet = "123456789ABCDEFGHJKLMNPQRSTUVWXYZabcdefghijkmnopqrstuvwxyz";
    for data in [&b"texture"[..], &[0u8; 40][..], &[255u8; 7][..]] {
        let identity = compute_identity(data);
        assert!(!identity.is_empty());
        assert!(identity.chars().all(|c| alphabet.contains(c)));
    }
}

#[test]
fn build_identity_hashes_the_executable() {
    let executable = b"\x7fELF pretend executable";
    let mut hasher = twox_hash::XxHash64::with_seed(0);
    std::hash::Hasher::write(&mut hasher, executable);
    let hash = std::hash::Hasher::finish(&hasher);
    let mut bytes = [0u8; 16];
    bytes[..8].copy_from_slice(&hash.to_ne_bytes());
    assert_eq!(compute_build_identity(executable), compute_identity(&bytes));
    assert_ne!(compute_build_identity(executable), compute_build_identity(b"other"));
}

#[test]
fn path_text_when_valid_utf8() {
    assert_eq!(string_from_path(b"textures/brick.png"), Some("textures/brick.png".to_string()));
    assert_eq!(string_from_path("dé/ü.png".as_bytes()), Some("dé/ü.png".to_string()));
    assert_eq!(string_from_path(&[b'a', 0xff, b'b']), None);
    assert_eq!(string_from_path(b""), Some(String::new()));
}
