use crate::schema::TextureFormat;
use vstd::prelude::*;
use vstd::utf8::*;
use vstd::arithmetic::power2::pow2;

verus! {

/// Bits per channel of an uncompressed format, and the size of one block.
///
/// Compressed formats store 4x4 texel blocks; every other supported format
/// stores blocks of a single texel.
#[derive(Clone, Copy, Debug, PartialEq, Eq, Structural)]
pub struct TextureFormatInfo {
    pub block_width: u32,
    pub block_height: u32,
    pub block_bits: u32,
    pub red_bits: u32,
    pub green_bits: u32,
    pub blue_bits: u32,
    pub alpha_bits: u32,
    pub depth_bits: u32,
    pub stencil_bits: u32,
    pub padding_bits: u32,
    pub exponent_bits: u32,
}

impl Default for TextureFormatInfo {
    /// All fields zero.
    fn default() -> (info: Self)
        ensures
            info == channel_bits(0, 0, 0, 0, 0, 0, 0, 0),
    {
        TextureFormatInfo {
            block_width: 0,
            block_height: 0,
            block_bits: 0,
            red_bits: 0,
            green_bits: 0,
            blue_bits: 0,
            alpha_bits: 0,
            depth_bits: 0,
            stencil_bits: 0,
            padding_bits: 0,
            exponent_bits: 0,
        }
    }
}

/// A format description that gives only the bits of each channel; the block fields are zero.
pub open spec fn channel_bits(
    red: u32,
    green: u32,
    blue: u32,
    alpha: u32,
    depth: u32,
    stencil: u32,
    padding: u32,
    exponent: u32,
) -> TextureFormatInfo {
    TextureFormatInfo {
        block_width: 0,
        block_height: 0,
        block_bits: 0,
        red_bits: red,
        green_bits: green,
        blue_bits: blue,
        alpha_bits: alpha,
        depth_bits: depth,
        stencil_bits: stencil,
        padding_bits: padding,
        exponent_bits: exponent,
    }
}

/// The bits of each channel of a format; `None` for the formats that are not described.
/// Block-compressed formats have no per-channel bits.
pub open spec fn channel_layout(format: TextureFormat) -> Option<TextureFormatInfo> {
    match format {
        TextureFormat::R32G32B32A32_FLOAT | TextureFormat::R32G32B32A32_UINT | TextureFormat::R32G32B32A32_SINT => Some(channel_bits(32, 32, 32, 32, 0, 0, 0, 0)),
        TextureFormat::R32G32B32_FLOAT | TextureFormat::R32G32B32_UINT | TextureFormat::R32G32B32_SINT => Some(channel_bits(32, 32, 32, 0, 0, 0, 0, 0)),
        TextureFormat::R16G16B16A16_FLOAT | TextureFormat::R16G16B16A16_UNORM | TextureFormat::R16G16B16A16_UINT | TextureFormat::R16G16B16A16_SNORM | TextureFormat::R16G16B16A16_SINT => Some(channel_bits(16, 16, 16, 16, 0, 0, 0, 0)),
        TextureFormat::R32G32_FLOAT | TextureFormat::R32G32_UINT | TextureFormat::R32G32_SINT => Some(channel_bits(32, 32, 0, 0, 0, 0, 0, 0)),
        TextureFormat::D32_FLOAT_S8_UINT => Some(channel_bits(0, 0, 0, 0, 32, 8, 24, 0)),
        TextureFormat::R10G10B10A2_UNORM | TextureFormat::R10G10B10A2_UINT => Some(channel_bits(10, 10, 10, 2, 0, 0, 0, 0)),
        TextureFormat::R11G11B10_FLOAT => Some(channel_bits(11, 11, 10, 0, 0, 0, 0, 0)),
        TextureFormat::R8G8B8_UNORM | TextureFormat::R8G8B8_SRGB => Some(channel_bits(8, 8, 8, 0, 0, 0, 0, 0)),
        TextureFormat::R8G8B8A8_UNORM | TextureFormat::R8G8B8A8_UINT | TextureFormat::R8G8B8A8_SNORM | TextureFormat::R8G8B8A8_SINT => Some(channel_bits(8, 8, 8, 8, 0, 0, 0, 0)),
        TextureFormat::R16G16_FLOAT | TextureFormat::R16G16_UNORM | TextureFormat::R16G16_UINT | TextureFormat::R16G16_SNORM | TextureFormat::R16G16_SINT => Some(channel_bits(16, 16, 0, 0, 0, 0, 0, 0)),
        TextureFormat::D32_FLOAT => Some(channel_bits(0, 0, 0, 0, 32, 0, 0, 0)),
        TextureFormat::R32_FLOAT | TextureFormat::R32_UINT | TextureFormat::R32_SINT => Some(channel_bits(32, 0, 0, 0, 0, 0, 0, 0)),
        TextureFormat::D24_UNORM_S8_UINT => Some(channel_bits(0, 0, 0, 0, 24, 8, 0, 0)),
        TextureFormat::R8G8_UNORM | TextureFormat::R8G8_UINT | TextureFormat::R8G8_SNORM | TextureFormat::R8G8_SINT => Some(channel_bits(8, 8, 0, 0, 0, 0, 0, 0)),
        TextureFormat::D16_UNORM => Some(channel_bits(0, 0, 0, 0, 16, 0, 0, 0)),
        TextureFormat::R16_FLOAT | TextureFormat::R16_UNORM | TextureFormat::R16_UINT | TextureFormat::R16_SNORM | TextureFormat::R16_SINT => Some(channel_bits(16, 0, 0, 0, 0, 0, 0, 0)),
        TextureFormat::R8_UNORM | TextureFormat::R8_UINT | TextureFormat::R8_SNORM | TextureFormat::R8_SINT => Some(channel_bits(8, 0, 0, 0, 0, 0, 0, 0)),
        TextureFormat::R9G9B9E5_FLOAT => Some(channel_bits(9, 9, 9, 0, 0, 0, 0, 5)),
        TextureFormat::R5G6B5_UNORM => Some(channel_bits(5, 6, 5, 0, 0, 0, 0, 0)),
        TextureFormat::R5G5B5A1_UNORM => Some(channel_bits(5, 6, 5, 1, 0, 0, 0, 0)),
        TextureFormat::B8G8R8A8_UNORM | TextureFormat::B8G8R8A8_SRGB => Some(channel_bits(8, 8, 8, 8, 0, 0, 0, 0)),
        TextureFormat::BC1_UNORM | TextureFormat::BC1A_UNORM | TextureFormat::BC2_UNORM | TextureFormat::BC3_UNORM | TextureFormat::BC4_UNORM | TextureFormat::BC4_SNORM | TextureFormat::BC5_UNORM | TextureFormat::BC5_SNORM | TextureFormat::BC1_SRGB | TextureFormat::BC1A_SRGB | TextureFormat::BC2_SRGB | TextureFormat::BC3_SRGB | TextureFormat::BC6U_FLOAT | TextureFormat::BC6S_FLOAT | TextureFormat::BC7_UNORM | TextureFormat::BC7_SRGB => Some(channel_bits(0, 0, 0, 0, 0, 0, 0, 0)),
        _ => None,
    }
}

/// Bits of one 4x4 block of a block-compressed format; `None` for every other format.
pub open spec fn compressed_block_bits(format: TextureFormat) -> Option<u32> {
    match format {
        TextureFormat::BC1_UNORM | TextureFormat::BC1_SRGB | TextureFormat::BC1A_UNORM | TextureFormat::BC1A_SRGB | TextureFormat::BC4_UNORM => Some(64u32),
        TextureFormat::BC2_UNORM | TextureFormat::BC2_SRGB | TextureFormat::BC3_UNORM | TextureFormat::BC3_SRGB | TextureFormat::BC5_UNORM | TextureFormat::BC6U_FLOAT | TextureFormat::BC6S_FLOAT | TextureFormat::BC7_UNORM | TextureFormat::BC7_SRGB => Some(128u32),
        _ => None,
    }
}

/// Sum of all channel bits of a description.
pub open spec fn total_channel_bits(c: TextureFormatInfo) -> int {
    c.red_bits + c.green_bits + c.blue_bits + c.alpha_bits + c.depth_bits + c.stencil_bits
        + c.padding_bits + c.exponent_bits
}

/// The full description of a format: a format whose channels sum to zero bits is
/// block-compressed (4x4 blocks of `compressed_block_bits`); any other format has blocks of
/// one texel holding all its channel bits. `None` where the format is not described.
pub open spec fn texture_format_info(format: TextureFormat) -> Option<TextureFormatInfo> {
    match channel_layout(format) {
        None => None,
        Some(c) => {
            if total_channel_bits(c) == 0 {
                match compressed_block_bits(format) {
                    None => None,
                    Some(bits) => Some(TextureFormatInfo {
                        block_width: 4,
                        block_height: 4,
                        block_bits: bits,
                        ..c
                    }),
                }
            } else {
                Some(TextureFormatInfo {
                    block_width: 1,
                    block_height: 1,
                    block_bits: total_channel_bits(c) as u32,
                    ..c
                })
            }
        },
    }
}

/// Whether `format` is described by `get_texture_format_info`.
pub fn is_texture_format_described(format: TextureFormat) -> (described: bool)
    ensures
        described == (texture_format_info(format) is Some),
{
    match format {
        TextureFormat::UNKNOWN
        | TextureFormat::R4G4_UNORM
        | TextureFormat::R4G4B4A4_UNORM
        | TextureFormat::R8_SRGB
        | TextureFormat::R8G8_SRGB
        | TextureFormat::R8G8B8A8_SRGB
        | TextureFormat::BC4_SNORM
        | TextureFormat::BC5_SNORM => false,
        _ => !is_astc(format),
    }
}

fn is_astc(format: TextureFormat) -> (astc: bool)
    ensures
        astc == (format.code() >= 71 && format.code() <= 98),
{
    let code = format.to_i8();
    code >= 71 && code <= 98
}

/// Describes the channels and block size of `format`.
pub fn get_texture_format_info(format: TextureFormat) -> (info: TextureFormatInfo)
    requires
        texture_format_info(format) is Some,
    ensures
        Some(info) == texture_format_info(format),
{
    let mut info: TextureFormatInfo = TextureFormatInfo::default();
    match format {
        TextureFormat::R32G32B32A32_FLOAT | TextureFormat::R32G32B32A32_UINT | TextureFormat::R32G32B32A32_SINT => {
            info.red_bits = 32;
            info.green_bits = 32;
            info.blue_bits = 32;
            info.alpha_bits = 32;
        },
        TextureFormat::R32G32B32_FLOAT | TextureFormat::R32G32B32_UINT | TextureFormat::R32G32B32_SINT => {
            info.red_bits = 32;
            info.green_bits = 32;
            info.blue_bits = 32;
        },
        TextureFormat::R16G16B16A16_FLOAT | TextureFormat::R16G16B16A16_UNORM | TextureFormat::R16G16B16A16_UINT | TextureFormat::R16G16B16A16_SNORM | TextureFormat::R16G16B16A16_SINT => {
            info.red_bits = 16;
            info.green_bits = 16;
            info.blue_bits = 16;
            info.alpha_bits = 16;
        },
        TextureFormat::R32G32_FLOAT | TextureFormat::R32G32_UINT | TextureFormat::R32G32_SINT => {
            info.red_bits = 32;
            info.green_bits = 32;
        },
        TextureFormat::D32_FLOAT_S8_UINT => {
            info.depth_bits = 32;
            info.stencil_bits = 8;
            info.padding_bits = 24;
        },
        TextureFormat::R10G10B10A2_UNORM | TextureFormat::R10G10B10A2_UINT => {
            info.red_bits = 10;
            info.green_bits = 10;
            info.blue_bits = 10;
            info.alpha_bits = 2;
        },
        TextureFormat::R11G11B10_FLOAT => {
            info.red_bits = 11;
            info.green_bits = 11;
            info.blue_bits = 10;
        },
        TextureFormat::R8G8B8_UNORM | TextureFormat::R8G8B8_SRGB => {
            info.red_bits = 8;
            info.green_bits = 8;
            info.blue_bits = 8;
        },
        TextureFormat::R8G8B8A8_UNORM | TextureFormat::R8G8B8A8_UINT | TextureFormat::R8G8B8A8_SNORM | TextureFormat::R8G8B8A8_SINT => {
            info.red_bits = 8;
            info.green_bits = 8;
            info.blue_bits = 8;
            info.alpha_bits = 8;
        },
        TextureFormat::R16G16_FLOAT | TextureFormat::R16G16_UNORM | TextureFormat::R16G16_UINT | TextureFormat::R16G16_SNORM | TextureFormat::R16G16_SINT => {
            info.red_bits = 16;
            info.green_bits = 16;
        },
        TextureFormat::D32_FLOAT => {
            info.depth_bits = 32;
        },
        TextureFormat::R32_FLOAT | TextureFormat::R32_UINT | TextureFormat::R32_SINT => {
            info.red_bits = 32;
        },
        TextureFormat::D24_UNORM_S8_UINT => {
            info.depth_bits = 24;
            info.stencil_bits = 8;
        },
        TextureFormat::R8G8_UNORM | TextureFormat::R8G8_UINT | TextureFormat::R8G8_SNORM | TextureFormat::R8G8_SINT => {
            info.red_bits = 8;
            info.green_bits = 8;
        },
        TextureFormat::D16_UNORM => {
            info.depth_bits = 16;
        },
        TextureFormat::R16_FLOAT | TextureFormat::R16_UNORM | TextureFormat::R16_UINT | TextureFormat::R16_SNORM | TextureFormat::R16_SINT => {
            info.red_bits = 16;
        },
        TextureFormat::R8_UNORM | TextureFormat::R8_UINT | TextureFormat::R8_SNORM | TextureFormat::R8_SINT => {
            info.red_bits = 8;
        },
        TextureFormat::R9G9B9E5_FLOAT => {
            info.red_bits = 9;
            info.green_bits = 9;
            info.blue_bits = 9;
            info.exponent_bits = 5;
        },
        TextureFormat::R5G6B5_UNORM => {
            info.red_bits = 5;
            info.green_bits = 6;
            info.blue_bits = 5;
        },
        TextureFormat::R5G5B5A1_UNORM => {
            info.red_bits = 5;
            info.green_bits = 6;
            info.blue_bits = 5;
            info.alpha_bits = 1;
        },
        TextureFormat::B8G8R8A8_UNORM | TextureFormat::B8G8R8A8_SRGB => {
            info.red_bits = 8;
            info.green_bits = 8;
            info.blue_bits = 8;
            info.alpha_bits = 8;
        },
        TextureFormat::BC1_UNORM | TextureFormat::BC1A_UNORM | TextureFormat::BC2_UNORM | TextureFormat::BC3_UNORM | TextureFormat::BC4_UNORM | TextureFormat::BC4_SNORM | TextureFormat::BC5_UNORM | TextureFormat::BC5_SNORM | TextureFormat::BC1_SRGB | TextureFormat::BC1A_SRGB | TextureFormat::BC2_SRGB | TextureFormat::BC3_SRGB | TextureFormat::BC6U_FLOAT | TextureFormat::BC6S_FLOAT | TextureFormat::BC7_UNORM | TextureFormat::BC7_SRGB => {
            // Compressed formats have no per-channel bits.
        },
        _ => {
            assert(false);
        },
    }

    // The block holds every channel.
    info.block_bits = info.block_bits + info.red_bits;
    info.block_bits = info.block_bits + info.green_bits;
    info.block_bits = info.block_bits + info.blue_bits;
    info.block_bits = info.block_bits + info.alpha_bits;
    info.block_bits = info.block_bits + info.depth_bits;
    info.block_bits = info.block_bits + info.stencil_bits;
    info.block_bits = info.block_bits + info.padding_bits;
    info.block_bits = info.block_bits + info.exponent_bits;

    // A block of zero bits is a compressed format.
    if info.block_bits == 0 {
        match format {
            TextureFormat::BC1_UNORM | TextureFormat::BC1_SRGB | TextureFormat::BC1A_UNORM | TextureFormat::BC1A_SRGB | TextureFormat::BC4_UNORM => {
                info.block_bits = 64;
                info.block_width = 4;
                info.block_height = 4;
            },
            TextureFormat::BC2_UNORM | TextureFormat::BC2_SRGB | TextureFormat::BC3_UNORM | TextureFormat::BC3_SRGB | TextureFormat::BC5_UNORM | TextureFormat::BC6U_FLOAT | TextureFormat::BC6S_FLOAT | TextureFormat::BC7_UNORM | TextureFormat::BC7_SRGB => {
                info.block_bits = 128;
                info.block_width = 4;
                info.block_height = 4;
            },
            _ => {
                assert(false);
            },
        }
    } else {
        info.block_width = 1;
        info.block_height = 1;
    }
    info
}

/// Bytes of one row of blocks, and of one slice of rows, of a texture level.
#[derive(Clone, Copy, Debug, PartialEq, Eq, Structural)]
pub struct TextureLayoutInfo {
    pub pitch: u32,
    pub slice_pitch: u32,
}

/// Number of blocks needed along one axis: at least one.
pub open spec fn blocks_along(extent: u32, block_extent: u32) -> int {
    if extent / block_extent >= 1 {
        (extent / block_extent) as int
    } else {
        1
    }
}

/// Bytes of a row of blocks of a `width` x `height` texture in `format`.
pub open spec fn spec_pitch(info: TextureFormatInfo, width: u32) -> int {
    blocks_along(width, info.block_width) * info.block_bits / 8
}

/// Bytes of all rows of blocks of a `width` x `height` texture in `format`.
pub open spec fn spec_slice_pitch(info: TextureFormatInfo, width: u32, height: u32) -> int {
    blocks_along(width, info.block_width) * blocks_along(height, info.block_height)
        * info.block_bits / 8
}

/// Whether the layout of a `width` x `height` texture in `format` can be computed with 32-bit
/// arithmetic: the format is described and its bit counts fit in a `u32`.
pub open spec fn layout_fits(format: TextureFormat, width: u32, height: u32) -> bool {
    &&& texture_format_info(format) is Some
    &&& blocks_along(width, texture_format_info(format)->0.block_width)
        * blocks_along(height, texture_format_info(format)->0.block_height)
        * texture_format_info(format)->0.block_bits <= u32::MAX
}

/// Whether the layout of a `width` x `height` texture in `format` can be computed.
pub fn texture_layout_fits(format: TextureFormat, width: u32, height: u32) -> (fits: bool)
    ensures
        fits == layout_fits(format, width, height),
{
    if !is_texture_format_described(format) {
        return false;
    }
    let info = get_texture_format_info(format);
    let bw = width / info.block_width;
    let across: u64 = if bw >= 1 { bw as u64 } else { 1 };
    let bh = height / info.block_height;
    let down: u64 = if bh >= 1 { bh as u64 } else { 1 };
    assert(across * down <= 0xffff_ffff_ffff_ffff) by (nonlinear_arith)
        requires
            across <= 0xffff_ffff,
            down <= 0xffff_ffff,
    ;
    let blocks = across * down;
    if blocks > 0xffff_ffff {
        assert(blocks * info.block_bits > u32::MAX) by (nonlinear_arith)
            requires
                blocks > 0xffff_ffff,
                info.block_bits >= 1,
        ;
        return false;
    }
    assert(blocks * info.block_bits <= 0xffff_ffff_ffff_ffff) by (nonlinear_arith)
        requires
            blocks <= 0xffff_ffff,
            info.block_bits <= 0xffff_ffff,
    ;
    blocks * (info.block_bits as u64) <= 0xffff_ffff
}

/// Row and slice pitch of a `width` x `height` texture in `format`, in bytes. A dimension
/// smaller than one block still takes one block.
pub fn get_texture_layout_info(format: TextureFormat, width: u32, height: u32) -> (layout:
    TextureLayoutInfo)
    requires
        layout_fits(format, width, height),
    ensures
        layout.pitch == spec_pitch(texture_format_info(format)->0, width),
        layout.slice_pitch == spec_slice_pitch(texture_format_info(format)->0, width, height),
{
    let format_info = get_texture_format_info(format);
    let bw = width / format_info.block_width;
    let width_by_block = if bw >= 1 { bw } else { 1 };
    let bh = height / format_info.block_height;
    let height_by_block = if bh >= 1 { bh } else { 1 };
    proof {
        let w = width_by_block as int;
        let h = height_by_block as int;
        let b = format_info.block_bits as int;
        assert(w * h * b <= u32::MAX);
        assert(w * b <= w * h * b) by (nonlinear_arith)
            requires w >= 0, h >= 1, b >= 0;
        assert(w * h <= w * h * b || b == 0) by (nonlinear_arith)
            requires w >= 0, h >= 1, b >= 0;
    }
    TextureLayoutInfo {
        pitch: (width_by_block * format_info.block_bits) / 8,
        slice_pitch: (width_by_block * height_by_block * format_info.block_bits) / 8,
    }
}


/// The digest of `data` under SHA-256.
pub uninterp spec fn sha256(data: Seq<u8>) -> Seq<u8>;

/// The SHA-256 digest of `data`, computed by `sha2::Sha256::digest`. The contract claims
/// that the result is the 32-byte SHA-256 digest of `data`; the digest itself is named, not
/// stated.
#[verifier::external_body]
fn sha256_digest(data: &[u8]) -> (digest: Vec<u8>)
    ensures
        digest@ == sha256(data@),
        digest@.len() == 32,
{
    <sha2::Sha256 as sha2::Digest>::digest(data).to_vec()
}

/// The Base58 alphabet used by Bitcoin: digit `d` is written as `base58_alphabet()[d]`.
pub open spec fn base58_alphabet() -> Seq<u8> {
    seq![49u8, 50u8, 51u8, 52u8, 53u8, 54u8, 55u8, 56u8, 57u8, 65u8, 66u8, 67u8, 68u8, 69u8, 70u8, 71u8, 72u8, 74u8, 75u8, 76u8, 77u8, 78u8, 80u8, 81u8, 82u8, 83u8, 84u8, 85u8, 86u8, 87u8, 88u8, 89u8, 90u8, 97u8, 98u8, 99u8, 100u8, 101u8, 102u8, 103u8, 104u8, 105u8, 106u8, 107u8, 109u8, 110u8, 111u8, 112u8, 113u8, 114u8, 115u8, 116u8, 117u8, 118u8, 119u8, 120u8, 121u8, 122u8]
}

/// Number of zero bytes at the start of `data`.
pub open spec fn leading_zero_bytes(data: Seq<u8>) -> nat
    decreases data.len(),
{
    if data.len() > 0 && data[0] == 0 {
        1 + leading_zero_bytes(data.drop_first())
    } else {
        0
    }
}

/// The number whose big-endian base-256 digits are `data`.
pub open spec fn big_endian_value(data: Seq<u8>) -> nat
    decreases data.len(),
{
    if data.len() == 0 {
        0
    } else {
        big_endian_value(data.drop_last()) * 256 + data.last() as nat
    }
}

/// The base-58 digits of `n`, most significant first; no digits for zero.
pub open spec fn base58_digits(n: nat) -> Seq<u8>
    decreases n,
{
    if n == 0 {
        seq![]
    } else {
        base58_digits(n / 58).push((n % 58) as u8)
    }
}

/// Base58 text of `data`, as ASCII bytes: one `1` for each leading zero byte, then the
/// base-58 digits of the number that `data` spells in big-endian order.
pub open spec fn base58_encoding(data: Seq<u8>) -> Seq<u8> {
    Seq::new(leading_zero_bytes(data), |i: int| base58_alphabet()[0])
        + base58_digits(big_endian_value(data)).map_values(|d: u8| base58_alphabet()[d as int])
}

/// Base58 text of `data`, as characters.
pub open spec fn base58_text(data: Seq<u8>) -> Seq<char> {
    base58_encoding(data).map_values(|b: u8| b as char)
}

/// Base58 text of `data`, computed by `smush::encode` with the Base58 codec (which uses the
/// `bs58` crate and the Bitcoin alphabet). The contract claims the Bitcoin Base58 encoding
/// as `base58_encoding` states it; smush's Base58 codec never fails.
#[verifier::external_body]
fn base58_encode(data: &[u8]) -> (text: Vec<u8>)
    ensures
        text@ == base58_encoding(data@),
{
    smush::encode(data, smush::Codec::Base58, smush::Quality::Default).unwrap()
}

/// The text that `bytes` encode in UTF-8, through `std::str::from_utf8`; `None` where the
/// bytes are not valid UTF-8.
#[verifier::external_body]
fn str_from_utf8<'a>(bytes: &'a [u8]) -> (text: Option<&'a str>)
    ensures
        text is Some <==> valid_utf8(bytes@),
        text matches Some(t) ==> t@ == decode_utf8(bytes@),
{
    std::str::from_utf8(bytes).ok()
}

/// Whether every byte is below 128.
pub open spec fn all_ascii(bytes: Seq<u8>) -> bool {
    forall|i: int| 0 <= i < bytes.len() ==> bytes[i] < 128
}

proof fn lemma_ascii_is_utf8(bytes: Seq<u8>)
    requires
        all_ascii(bytes),
    ensures
        valid_utf8(bytes),
        decode_utf8(bytes) == bytes.map_values(|b: u8| b as char),
    decreases bytes.len(),
{
    if bytes.len() > 0 {
        let b = bytes[0];
        assert(b & 0x7f == b) by (bit_vector)
            requires
                b < 128,
        ;
        assert(pop_first_scalar(bytes) =~= bytes.drop_first());
        lemma_ascii_is_utf8(bytes.drop_first());
        assert(decode_utf8(bytes) =~= bytes.map_values(|b: u8| b as char));
    }
}

proof fn lemma_base58_digits_below_58(n: nat)
    ensures
        forall|i: int| 0 <= i < base58_digits(n).len() ==> base58_digits(n)[i] < 58,
    decreases n,
{
    if n != 0 {
        lemma_base58_digits_below_58(n / 58);
        let prefix = base58_digits(n / 58);
        assert(base58_digits(n) == prefix.push((n % 58) as u8));
        assert forall|i: int| 0 <= i < base58_digits(n).len() implies base58_digits(n)[i] < 58 by {
            if i < prefix.len() {
                assert(base58_digits(n)[i] == prefix[i]);
            } else {
                assert(base58_digits(n)[i] == (n % 58) as u8);
            }
        }
    }
}

proof fn lemma_base58_is_ascii(data: Seq<u8>)
    ensures
        all_ascii(base58_encoding(data)),
{
    lemma_base58_digits_below_58(big_endian_value(data));
    let enc = base58_encoding(data);
    assert forall|i: int| 0 <= i < enc.len() implies enc[i] < 128 by {
        let lz = leading_zero_bytes(data) as int;
        if i >= lz {
            let d = base58_digits(big_endian_value(data))[i - lz];
            assert(0 <= d < 58);
        }
    }
}

/// The identity of a piece of data: the Base58 text of its SHA-256 digest.
pub fn compute_identity(data: &[u8]) -> (identity: String)
    ensures
        identity@ == base58_text(sha256(data@)),
        sha256(data@).len() == 32,
        identity@.len() > 0,
{
    let digest = sha256_digest(data);
    proof {
        lemma_base58_nonempty(digest@);
    }
    let encoded = base58_encode(digest.as_slice());
    proof {
        lemma_base58_is_ascii(digest@);
        lemma_ascii_is_utf8(encoded@);
    }
    match str_from_utf8(encoded.as_slice()) {
        Some(text) => String::from_str(text),
        None => {
            assert(false);
            String::new()
        },
    }
}

/// The text of a path given by its bytes, when they are valid UTF-8.
pub fn string_from_path(path: &[u8]) -> (text: Option<String>)
    ensures
        text is Some <==> valid_utf8(path@),
        text matches Some(t) ==> t@ == decode_utf8(path@),
{
    match str_from_utf8(path) {
        Some(path_str) => Some(String::from_str(path_str)),
        None => None,
    }
}

/// Law: an identity is made only of characters of the Base58 alphabet, so it never holds a
/// path separator, a dot or a space.
pub proof fn lemma_identity_in_base58_alphabet(data: Seq<u8>)
    ensures
        forall|i: int|
            0 <= i < base58_text(sha256(data)).len() ==> base58_alphabet().contains(
                #[trigger] base58_text(sha256(data))[i] as u8,
            ),
{
    let digest = sha256(data);
    lemma_base58_digits_below_58(big_endian_value(digest));
    let enc = base58_encoding(digest);
    assert forall|i: int| 0 <= i < base58_text(digest).len() implies base58_alphabet().contains(
        #[trigger] base58_text(digest)[i] as u8,
    ) by {
        let lz = leading_zero_bytes(digest) as int;
        lemma_base58_is_ascii(digest);
        assert(base58_text(digest)[i] as u8 == enc[i]);
        if i < lz {
            assert(enc[i] == base58_alphabet()[0]);
        } else {
            let d = base58_digits(big_endian_value(digest))[i - lz];
            assert(enc[i] == base58_alphabet()[d as int]);
        }
    }
}

/// Character code of Base58 digit `d`: the digits, the capitals without `I` and `O`, the
/// small letters without `l`.
spec fn alphabet_code(d: int) -> int {
    if d < 9 {
        49 + d
    } else if d < 17 {
        56 + d
    } else if d < 22 {
        57 + d
    } else if d < 33 {
        58 + d
    } else if d < 44 {
        64 + d
    } else {
        65 + d
    }
}

proof fn lemma_alphabet_codes()
    ensures
        forall|d: int| 0 <= d < 58 ==> base58_alphabet()[d] as int == #[trigger] alphabet_code(d),
{
    assert forall|d: int| 0 <= d < 58 implies base58_alphabet()[d] as int == #[trigger] alphabet_code(d) by {
        if d == 0 {
        } else if d == 1 {
        } else if d == 2 {
        } else if d == 3 {
        } else if d == 4 {
        } else if d == 5 {
        } else if d == 6 {
        } else if d == 7 {
        } else if d == 8 {
        } else if d == 9 {
        } else if d == 10 {
        } else if d == 11 {
        } else if d == 12 {
        } else if d == 13 {
        } else if d == 14 {
        } else if d == 15 {
        } else if d == 16 {
        } else if d == 17 {
        } else if d == 18 {
        } else if d == 19 {
        } else if d == 20 {
        } else if d == 21 {
        } else if d == 22 {
        } else if d == 23 {
        } else if d == 24 {
        } else if d == 25 {
        } else if d == 26 {
        } else if d == 27 {
        } else if d == 28 {
        } else if d == 29 {
        } else if d == 30 {
        } else if d == 31 {
        } else if d == 32 {
        } else if d == 33 {
        } else if d == 34 {
        } else if d == 35 {
        } else if d == 36 {
        } else if d == 37 {
        } else if d == 38 {
        } else if d == 39 {
        } else if d == 40 {
        } else if d == 41 {
        } else if d == 42 {
        } else if d == 43 {
        } else if d == 44 {
        } else if d == 45 {
        } else if d == 46 {
        } else if d == 47 {
        } else if d == 48 {
        } else if d == 49 {
        } else if d == 50 {
        } else if d == 51 {
        } else if d == 52 {
        } else if d == 53 {
        } else if d == 54 {
        } else if d == 55 {
        } else if d == 56 {
        }
    }
}

/// The Base58 alphabet is in increasing order.
proof fn lemma_alphabet_increasing(i: int, j: int)
    requires
        0 <= i < j < 58,
    ensures
        base58_alphabet()[i] < base58_alphabet()[j],
{
    lemma_alphabet_codes();
    assert(alphabet_code(i) < alphabet_code(j));
}

/// The base-58 digits of a positive number do not start with zero.
proof fn lemma_digits_lead_nonzero(n: nat)
    requires
        n > 0,
    ensures
        base58_digits(n).len() > 0,
        base58_digits(n)[0] != 0,
    decreases n,
{
    if n / 58 > 0 {
        lemma_digits_lead_nonzero(n / 58);
        assert(base58_digits(n)[0] == base58_digits(n / 58)[0]);
    } else {
        assert(base58_digits(n / 58) =~= Seq::<u8>::empty());
        assert(base58_digits(n)[0] == (n % 58) as u8);
    }
}

/// Numbers with the same base-58 digits are equal.
proof fn lemma_digits_injective(m: nat, n: nat)
    requires
        base58_digits(m) == base58_digits(n),
    ensures
        m == n,
    decreases m,
{
    if m == 0 {
        if n > 0 {
            lemma_digits_lead_nonzero(n);
        }
    } else {
        if n == 0 {
            lemma_digits_lead_nonzero(m);
        } else {
            assert(base58_digits(m).drop_last() =~= base58_digits(m / 58));
            assert(base58_digits(n).drop_last() =~= base58_digits(n / 58));
            lemma_digits_injective(m / 58, n / 58);
            assert(base58_digits(m).last() == (m % 58) as u8);
            assert(base58_digits(n).last() == (n % 58) as u8);
        }
    }
}

/// Byte strings of the same length that spell the same number are equal.
proof fn lemma_big_endian_injective(x: Seq<u8>, y: Seq<u8>)
    requires
        x.len() == y.len(),
        big_endian_value(x) == big_endian_value(y),
    ensures
        x == y,
    decreases x.len(),
{
    if x.len() > 0 {
        let a = big_endian_value(x.drop_last());
        let c = big_endian_value(y.drop_last());
        let b = x.last() as nat;
        let d = y.last() as nat;
        assert(a == c && b == d) by (nonlinear_arith)
            requires
                a * 256 + b == c * 256 + d,
                b < 256,
                d < 256,
        ;
        lemma_big_endian_injective(x.drop_last(), y.drop_last());
        assert(x =~= x.drop_last().push(x.last()));
        assert(y =~= y.drop_last().push(y.last()));
    }
}

/// A byte string that does not start with a zero byte spells a positive number.
proof fn lemma_big_endian_positive(x: Seq<u8>)
    requires
        x.len() > 0,
        x[0] != 0,
    ensures
        big_endian_value(x) > 0,
    decreases x.len(),
{
    if x.len() > 1 {
        assert(x.drop_last()[0] == x[0]);
        lemma_big_endian_positive(x.drop_last());
    } else {
        assert(x.drop_last() =~= Seq::<u8>::empty());
    }
}

proof fn lemma_leading_zeros_bound(x: Seq<u8>)
    ensures
        leading_zero_bytes(x) <= x.len(),
        leading_zero_bytes(x) < x.len() ==> x[leading_zero_bytes(x) as int] != 0,
        forall|i: int| 0 <= i < leading_zero_bytes(x) ==> x[i] == 0,
    decreases x.len(),
{
    if x.len() > 0 && x[0] == 0 {
        lemma_leading_zeros_bound(x.drop_first());
        assert forall|i: int| 0 <= i < leading_zero_bytes(x) implies x[i] == 0 by {
            if i > 0 {
                assert(x[i] == x.drop_first()[i - 1]);
            }
        }
    }
}

/// A non-empty byte string has a non-empty Base58 text.
proof fn lemma_base58_nonempty(x: Seq<u8>)
    requires
        x.len() > 0,
    ensures
        base58_encoding(x).len() > 0,
        base58_text(x).len() > 0,
{
    if leading_zero_bytes(x) == 0 {
        lemma_big_endian_positive(x);
        lemma_digits_lead_nonzero(big_endian_value(x));
    }
}

/// The digits, as Base58 characters, of a number.
spec fn digit_text(n: nat) -> Seq<u8> {
    base58_digits(n).map_values(|d: u8| base58_alphabet()[d as int])
}

proof fn lemma_digit_text_injective(m: nat, n: nat)
    requires
        digit_text(m) == digit_text(n),
    ensures
        m == n,
{
    lemma_base58_digits_below_58(m);
    lemma_base58_digits_below_58(n);
    let dm = base58_digits(m);
    let dn = base58_digits(n);
    assert(dm.len() == digit_text(m).len());
    assert(dn.len() == digit_text(n).len());
    assert forall|i: int| 0 <= i < dm.len() implies dm[i] == dn[i] by {
        assert(digit_text(m)[i] == base58_alphabet()[dm[i] as int]);
        assert(digit_text(n)[i] == base58_alphabet()[dn[i] as int]);
        if dm[i] < dn[i] {
            lemma_alphabet_increasing(dm[i] as int, dn[i] as int);
        } else if dn[i] < dm[i] {
            lemma_alphabet_increasing(dn[i] as int, dm[i] as int);
        }
    }
    assert(dm =~= dn);
    lemma_digits_injective(m, n);
}

/// Law: Base58 texts name byte strings of one length one to one: two strings of the same
/// length have the same text exactly when they are equal, and a non-empty string has a
/// non-empty text. (Identities are the texts of 32-byte digests; see `compute_identity`.)
pub proof fn lemma_base58_one_to_one(x: Seq<u8>, y: Seq<u8>)
    requires
        x.len() == y.len(),
    ensures
        base58_text(x) == base58_text(y) <==> x == y,
        x.len() > 0 ==> base58_text(x).len() > 0,
{
    if x.len() > 0 {
        lemma_base58_nonempty(x);
    }
    if base58_text(x) == base58_text(y) {
        let ex = base58_encoding(x);
        let ey = base58_encoding(y);
        assert(ex =~= ey) by {
            lemma_base58_is_ascii(x);
            lemma_base58_is_ascii(y);
            assert(ex.len() == base58_text(x).len());
            assert forall|i: int| 0 <= i < ex.len() implies ex[i] == ey[i] by {
                assert(base58_text(x)[i] == ex[i] as char);
                assert(base58_text(y)[i] == ey[i] as char);
                assert(ex[i] as char == ey[i] as char);
            }
        }
        let lx = leading_zero_bytes(x) as int;
        let ly = leading_zero_bytes(y) as int;
        lemma_leading_zeros_bound(x);
        lemma_leading_zeros_bound(y);
        assert(base58_alphabet()[0] == 49u8);
        lemma_leading_ones_end(x, y);
        lemma_leading_ones_end(y, x);
        assert(lx == ly);
        assert(digit_text(big_endian_value(x)) =~= ex.subrange(lx, ex.len() as int));
        assert(digit_text(big_endian_value(y)) =~= ey.subrange(ly, ey.len() as int));
        lemma_digit_text_injective(big_endian_value(x), big_endian_value(y));
        lemma_big_endian_injective(x, y);
    }
}

/// Of two strings of one length with the same Base58 text, neither has fewer leading zero
/// bytes than the other.
proof fn lemma_leading_ones_end(x: Seq<u8>, y: Seq<u8>)
    requires
        x.len() == y.len(),
        base58_encoding(x) == base58_encoding(y),
    ensures
        leading_zero_bytes(x) >= leading_zero_bytes(y),
{
    if leading_zero_bytes(x) < leading_zero_bytes(y) {
        lemma_fewer_leading_zeros(x, y);
    }
}

/// A string with fewer leading zero bytes than another of its length has another Base58
/// text: where the other's text still has a `1`, its own has a digit that is not zero.
proof fn lemma_fewer_leading_zeros(x: Seq<u8>, y: Seq<u8>)
    requires
        x.len() == y.len(),
        leading_zero_bytes(x) < leading_zero_bytes(y),
    ensures
        base58_encoding(x) != base58_encoding(y),
{
    let lx = leading_zero_bytes(x) as int;
    let ly = leading_zero_bytes(y) as int;
    lemma_leading_zeros_bound(x);
    lemma_leading_zeros_bound(y);
    let ex = base58_encoding(x);
    let ey = base58_encoding(y);
    assert(ey[lx] == base58_alphabet()[0]);
    lemma_big_endian_positive(x.subrange(lx, x.len() as int));
    assert(big_endian_value(x) > 0) by {
        lemma_big_endian_drop_zeros(x, lx);
    }
    let n = big_endian_value(x);
    lemma_digits_lead_nonzero(n);
    lemma_base58_digits_below_58(n);
    let d = base58_digits(n)[0];
    assert(ex[lx] == base58_alphabet()[d as int]);
    lemma_alphabet_increasing(0, d as int);
}

/// Leading zero bytes do not change the number that a string spells.
proof fn lemma_big_endian_drop_zeros(x: Seq<u8>, k: int)
    requires
        0 <= k <= x.len(),
        forall|i: int| 0 <= i < k ==> x[i] == 0,
    ensures
        big_endian_value(x) == big_endian_value(x.subrange(k, x.len() as int)),
    decreases x.len(),
{
    if k < x.len() {
        lemma_big_endian_drop_zeros(x.drop_last(), k);
        assert(x.drop_last().subrange(k, x.len() - 1) =~= x.subrange(k, x.len() as int).drop_last());
    } else {
        assert(x.subrange(k, x.len() as int) =~= Seq::<u8>::empty());
        lemma_big_endian_zero(x);
    }
}

/// A string of zero bytes spells zero.
proof fn lemma_big_endian_zero(x: Seq<u8>)
    requires
        forall|i: int| 0 <= i < x.len() ==> x[i] == 0,
    ensures
        big_endian_value(x) == 0,
    decreases x.len(),
{
    if x.len() > 0 {
        lemma_big_endian_zero(x.drop_last());
    }
}

/// Whether `format` is described with 4x4 blocks of `bits` bits.
pub open spec fn block_of(format: TextureFormat, bits: u32) -> bool {
    texture_format_info(format) matches Some(info) && info.block_width == 4 && info.block_height
        == 4 && info.block_bits == bits
}

/// Law: each block-compressed format has the block of its BCn family: BC1 (with or without
/// alpha) and BC4 blocks are 64 bits, BC2, BC3, BC5, BC6H and BC7 blocks are 128 bits, whatever
/// the color space.
pub proof fn lemma_bcn_family_block_sizes()
    ensures
        block_of(TextureFormat::BC1_UNORM, 64),
        block_of(TextureFormat::BC1_SRGB, 64),
        block_of(TextureFormat::BC1A_UNORM, 64),
        block_of(TextureFormat::BC1A_SRGB, 64),
        block_of(TextureFormat::BC4_UNORM, 64),
        block_of(TextureFormat::BC2_UNORM, 128),
        block_of(TextureFormat::BC2_SRGB, 128),
        block_of(TextureFormat::BC3_UNORM, 128),
        block_of(TextureFormat::BC3_SRGB, 128),
        block_of(TextureFormat::BC5_UNORM, 128),
        block_of(TextureFormat::BC6U_FLOAT, 128),
        block_of(TextureFormat::BC6S_FLOAT, 128),
        block_of(TextureFormat::BC7_UNORM, 128),
        block_of(TextureFormat::BC7_SRGB, 128),
{
}

/// Law: an sRGB block-compressed format has the same block as its linear counterpart.
pub proof fn lemma_srgb_blocks_match_linear()
    ensures
        texture_format_info(TextureFormat::BC1_SRGB) == texture_format_info(TextureFormat::BC1_UNORM),
        texture_format_info(TextureFormat::BC1A_SRGB) == texture_format_info(TextureFormat::BC1A_UNORM),
        texture_format_info(TextureFormat::BC2_SRGB) == texture_format_info(TextureFormat::BC2_UNORM),
        texture_format_info(TextureFormat::BC3_SRGB) == texture_format_info(TextureFormat::BC3_UNORM),
        texture_format_info(TextureFormat::BC7_SRGB) == texture_format_info(TextureFormat::BC7_UNORM),
{
}

/// Whether `format` is described with blocks of one texel of `bits` bits.
pub open spec fn texel_of(format: TextureFormat, bits: u32) -> bool {
    texture_format_info(format) matches Some(info) && info.block_width == 1 && info.block_height
        == 1 && info.block_bits == bits
}

/// Law: each uncompressed format that is described has one-texel blocks of the bits its
/// channels add up to: 128 for four 32-bit channels, 64 for four 16-bit ones, 32 for four
/// 8-bit ones, and so on down to 8 for one 8-bit channel.
pub proof fn lemma_uncompressed_texel_sizes()
    ensures
        texel_of(TextureFormat::R32G32B32A32_FLOAT, 128),
        texel_of(TextureFormat::R32G32B32A32_UINT, 128),
        texel_of(TextureFormat::R32G32B32A32_SINT, 128),
        texel_of(TextureFormat::R32G32B32_FLOAT, 96),
        texel_of(TextureFormat::R32G32B32_UINT, 96),
        texel_of(TextureFormat::R32G32B32_SINT, 96),
        texel_of(TextureFormat::R16G16B16A16_FLOAT, 64),
        texel_of(TextureFormat::R16G16B16A16_UNORM, 64),
        texel_of(TextureFormat::R16G16B16A16_UINT, 64),
        texel_of(TextureFormat::R16G16B16A16_SNORM, 64),
        texel_of(TextureFormat::R16G16B16A16_SINT, 64),
        texel_of(TextureFormat::R32G32_FLOAT, 64),
        texel_of(TextureFormat::R32G32_UINT, 64),
        texel_of(TextureFormat::R32G32_SINT, 64),
        texel_of(TextureFormat::D32_FLOAT_S8_UINT, 64),
        texel_of(TextureFormat::R10G10B10A2_UNORM, 32),
        texel_of(TextureFormat::R10G10B10A2_UINT, 32),
        texel_of(TextureFormat::R11G11B10_FLOAT, 32),
        texel_of(TextureFormat::R8G8B8_UNORM, 24),
        texel_of(TextureFormat::R8G8B8_SRGB, 24),
        texel_of(TextureFormat::R8G8B8A8_UNORM, 32),
        texel_of(TextureFormat::R8G8B8A8_UINT, 32),
        texel_of(TextureFormat::R8G8B8A8_SNORM, 32),
        texel_of(TextureFormat::R8G8B8A8_SINT, 32),
        texel_of(TextureFormat::R16G16_FLOAT, 32),
        texel_of(TextureFormat::R16G16_UNORM, 32),
        texel_of(TextureFormat::R16G16_UINT, 32),
        texel_of(TextureFormat::R16G16_SNORM, 32),
        texel_of(TextureFormat::R16G16_SINT, 32),
        texel_of(TextureFormat::D32_FLOAT, 32),
        texel_of(TextureFormat::R32_FLOAT, 32),
        texel_of(TextureFormat::R32_UINT, 32),
        texel_of(TextureFormat::R32_SINT, 32),
        texel_of(TextureFormat::D24_UNORM_S8_UINT, 32),
        texel_of(TextureFormat::R8G8_UNORM, 16),
        texel_of(TextureFormat::R8G8_UINT, 16),
        texel_of(TextureFormat::R8G8_SNORM, 16),
        texel_of(TextureFormat::R8G8_SINT, 16),
        texel_of(TextureFormat::D16_UNORM, 16),
        texel_of(TextureFormat::R16_FLOAT, 16),
        texel_of(TextureFormat::R16_UNORM, 16),
        texel_of(TextureFormat::R16_UINT, 16),
        texel_of(TextureFormat::R16_SNORM, 16),
        texel_of(TextureFormat::R16_SINT, 16),
        texel_of(TextureFormat::R8_UNORM, 8),
        texel_of(TextureFormat::R8_UINT, 8),
        texel_of(TextureFormat::R8_SNORM, 8),
        texel_of(TextureFormat::R8_SINT, 8),
        texel_of(TextureFormat::R9G9B9E5_FLOAT, 32),
        texel_of(TextureFormat::R5G6B5_UNORM, 16),
        texel_of(TextureFormat::R5G5B5A1_UNORM, 17),
        texel_of(TextureFormat::B8G8R8A8_UNORM, 32),
        texel_of(TextureFormat::B8G8R8A8_SRGB, 32),
{
}

/// Law: a texture's slice takes at least as many bytes as one of its rows.
pub proof fn lemma_slice_pitch_at_least_pitch(format: TextureFormat, width: u32, height: u32)
    requires
        texture_format_info(format) is Some,
    ensures
        spec_pitch(texture_format_info(format)->0, width) <= spec_slice_pitch(
            texture_format_info(format)->0,
            width,
            height,
        ),
{
    let info = texture_format_info(format)->0;
    let w = blocks_along(width, info.block_width);
    let h = blocks_along(height, info.block_height);
    let b = info.block_bits as int;
    assert(w * b <= w * h * b) by (nonlinear_arith)
        requires
            w >= 1,
            h >= 1,
            b >= 0,
    ;
    assert(w * b / 8 <= w * h * b / 8) by (nonlinear_arith)
        requires
            w * b <= w * h * b,
            0 <= w * b,
    ;
}

/// Blocks along an axis do not decrease as the axis grows.
proof fn lemma_blocks_along_grows(e1: u32, e2: u32, block_extent: u32)
    requires
        e1 <= e2,
        block_extent > 0,
    ensures
        1 <= blocks_along(e1, block_extent) <= blocks_along(e2, block_extent),
{
    assert(e1 / block_extent <= e2 / block_extent) by (nonlinear_arith)
        requires
            e1 <= e2,
            block_extent > 0,
    ;
}

/// Law: a texture's row pitch is positive, and its row and slice pitches do not decrease as
/// its width and height grow.
pub proof fn lemma_layout_grows_with_size(format: TextureFormat, w1: u32, h1: u32, w2: u32, h2: u32)
    requires
        texture_format_info(format) is Some,
        w1 <= w2,
        h1 <= h2,
    ensures
        spec_pitch(texture_format_info(format)->0, w1) > 0,
        spec_pitch(texture_format_info(format)->0, w1) <= spec_pitch(texture_format_info(format)->0, w2),
        spec_slice_pitch(texture_format_info(format)->0, w1, h1) <= spec_slice_pitch(
            texture_format_info(format)->0,
            w2,
            h2,
        ),
        spec_pitch(texture_format_info(format)->0, w1) <= spec_slice_pitch(
            texture_format_info(format)->0,
            w1,
            h1,
        ),
{
    let info = texture_format_info(format)->0;
    assert(info.block_width >= 1 && info.block_height >= 1 && info.block_bits >= 8);
    lemma_blocks_along_grows(w1, w2, info.block_width);
    lemma_blocks_along_grows(h1, h2, info.block_height);
    let a1 = blocks_along(w1, info.block_width);
    let a2 = blocks_along(w2, info.block_width);
    let d1 = blocks_along(h1, info.block_height);
    let d2 = blocks_along(h2, info.block_height);
    let b = info.block_bits as int;
    assert(a1 * b / 8 > 0 && a1 * b / 8 <= a2 * b / 8) by (nonlinear_arith)
        requires
            1 <= a1 <= a2,
            b >= 8,
    ;
    assert(a1 * d1 * b / 8 <= a2 * d2 * b / 8) by (nonlinear_arith)
        requires
            1 <= a1 <= a2,
            1 <= d1 <= d2,
            b >= 8,
    ;
    lemma_slice_pitch_at_least_pitch(format, w1, h1);
}

/// The XXH64 hash of `data` under `seed`.
pub uninterp spec fn xxhash64(seed: u64, data: Seq<u8>) -> u64;

/// The XXH64 hash of `data` under `seed`, computed by feeding `data` to a
/// `twox_hash::XxHash64` made with that seed and finishing it. The contract claims only that
/// the result is that hash, which it names.
#[verifier::external_body]
fn xxhash64_of(seed: u64, data: &[u8]) -> (hash: u64)
    ensures
        hash == xxhash64(seed, data@),
{
    let mut hasher = twox_hash::XxHash64::with_seed(seed);
    std::hash::Hasher::write(&mut hasher, data);
    std::hash::Hasher::finish(&hasher)
}

/// The eight bytes of `value`, least significant first.
pub open spec fn u64_le_bytes(value: u64) -> Seq<u8> {
    Seq::new(8, |i: int| ((value as int / pow2((8 * i) as nat) as int) % 256) as u8)
}

/// Whether `bytes` are the eight bytes of `value` in one of the two byte orders.
pub open spec fn u64_bytes_in_some_order(bytes: Seq<u8>, value: u64) -> bool {
    bytes == u64_le_bytes(value) || bytes == u64_le_bytes(value).reverse()
}

/// Writes `value` into the first eight bytes of `buf` in the machine's byte order, through
/// `byteorder::NativeEndian::write_u64`. The contract claims that the other bytes are
/// unchanged and that the eight bytes are `value` least or most significant first; which of
/// the two depends on the machine, and is left unsaid.
#[verifier::external_body]
fn write_u64_native(buf: &mut Vec<u8>, value: u64)
    requires
        old(buf)@.len() >= 8,
    ensures
        final(buf)@.len() == old(buf)@.len(),
        u64_bytes_in_some_order(final(buf)@.subrange(0, 8), value),
        final(buf)@.subrange(8, final(buf)@.len() as int) == old(buf)@.subrange(
            8,
            old(buf)@.len() as int,
        ),
{
    <byteorder::NativeEndian as byteorder::ByteOrder>::write_u64(buf.as_mut_slice(), value)
}

/// The identity of a program build, from the bytes of its executable: the identity of a
/// sixteen-byte block holding the executable's XXH64 hash (seed zero) in the machine's byte
/// order, followed by zeros.
pub fn compute_build_identity(executable: &[u8]) -> (identity: String)
    ensures
        exists|hash_bytes: Seq<u8>|
            #![trigger u64_bytes_in_some_order(hash_bytes, xxhash64(0, executable@))]
            u64_bytes_in_some_order(hash_bytes, xxhash64(0, executable@)) && identity@
                == base58_text(sha256(hash_bytes + Seq::new(8, |i: int| 0u8))),
{
    let hash = xxhash64_of(0, executable);
    let mut bytes: Vec<u8> = vec![0u8; 16];
    let ghost zeroed = bytes@;
    assert(zeroed.subrange(8, 16) =~= Seq::new(8, |i: int| 0u8));
    write_u64_native(&mut bytes, hash);
    let identity = compute_identity(bytes.as_slice());
    proof {
        let hash_bytes = bytes@.subrange(0, 8);
        assert(bytes@.subrange(8, 16) =~= Seq::new(8, |i: int| 0u8));
        assert(bytes@ =~= hash_bytes + Seq::new(8, |i: int| 0u8));
        assert(u64_bytes_in_some_order(hash_bytes, xxhash64(0, executable@)));
    }
    identity
}

} // verus!
