use crate::process::imaging::{
    image_color, image_color_type, image_dimensions, image_extent, image_to_rgba, rgba8_pixels,
};
use crate::process::{alpha_format, has_alpha_channel, ColorType};
use crate::schema::{TextureDescArgs, TextureFormat, TextureType};
use crate::utilities::texture_format_info;
use vstd::prelude::*;

verus! {

/// The block-compressed formats.
pub open spec fn is_bcn(format: TextureFormat) -> bool {
    match format {
        TextureFormat::BC1_UNORM
        | TextureFormat::BC1_SRGB
        | TextureFormat::BC1A_UNORM
        | TextureFormat::BC1A_SRGB
        | TextureFormat::BC2_UNORM
        | TextureFormat::BC2_SRGB
        | TextureFormat::BC3_UNORM
        | TextureFormat::BC3_SRGB
        | TextureFormat::BC4_UNORM
        | TextureFormat::BC4_SNORM
        | TextureFormat::BC5_UNORM
        | TextureFormat::BC5_SNORM
        | TextureFormat::BC6U_FLOAT
        | TextureFormat::BC6S_FLOAT
        | TextureFormat::BC7_UNORM
        | TextureFormat::BC7_SRGB => true,
        _ => false,
    }
}

/// Whether `format` is one of the block-compressed (BCn) formats.
pub fn is_bcn_format(format: TextureFormat) -> (bcn: bool)
    ensures
        bcn == is_bcn(format),
{
    match format {
        TextureFormat::BC1_UNORM
        | TextureFormat::BC1_SRGB
        | TextureFormat::BC1A_UNORM
        | TextureFormat::BC1A_SRGB
        | TextureFormat::BC2_UNORM
        | TextureFormat::BC2_SRGB
        | TextureFormat::BC3_UNORM
        | TextureFormat::BC3_SRGB
        | TextureFormat::BC4_UNORM
        | TextureFormat::BC4_SNORM
        | TextureFormat::BC5_UNORM
        | TextureFormat::BC5_SNORM
        | TextureFormat::BC6U_FLOAT
        | TextureFormat::BC6S_FLOAT
        | TextureFormat::BC7_UNORM
        | TextureFormat::BC7_SRGB => true,
        _ => false,
    }
}

/// Law: every described block-compressed format stores 4x4 texel blocks of 64 or 128 bits,
/// and every other described format stores one texel per block, holding all its channels.
pub proof fn lemma_bcn_formats_use_4x4_blocks(format: TextureFormat)
    requires
        texture_format_info(format) is Some,
    ensures
        is_bcn(format) ==> ({
            let info = texture_format_info(format)->0;
            &&& info.block_width == 4
            &&& info.block_height == 4
            &&& (info.block_bits == 64 || info.block_bits == 128)
        }),
        !is_bcn(format) ==> ({
            let info = texture_format_info(format)->0;
            &&& info.block_width == 1
            &&& info.block_height == 1
            &&& info.block_bits > 0
        }),
{
}

/// Encoding effort for BC6H.
#[derive(Clone, Copy, Debug, PartialEq, Eq, Structural)]
pub enum Bc6hQuality {
    VeryFast,
    Basic,
    Slow,
    VerySlow,
}

/// Encoding effort for BC7.
#[derive(Clone, Copy, Debug, PartialEq, Eq, Structural)]
pub enum Bc7Quality {
    UltraFast,
    VeryFast,
    Fast,
    Basic,
    Slow,
}

/// The compressed format chosen for an image with this channel layout, and whether the
/// image has alpha.
pub open spec fn guessed_format(color_type: ColorType) -> (TextureFormat, bool) {
    match color_type {
        ColorType::Gray(_) => (TextureFormat::BC4_UNORM, false),
        ColorType::GrayA(_) => (TextureFormat::BC4_UNORM, true),
        ColorType::RGB(_) => (TextureFormat::BC7_UNORM, false),
        ColorType::RGBA(_) => (TextureFormat::BC7_UNORM, true),
        ColorType::BGRA(_) => (TextureFormat::BC7_UNORM, true),
        ColorType::BGR(_) => (TextureFormat::BC1_UNORM, false),
        ColorType::Palette(_) => (TextureFormat::UNKNOWN, false),
    }
}

/// The block-compressed format to encode an image with this channel layout into, and
/// whether the image has alpha. Palette images are not handled.
pub fn guess_format(color_type: ColorType) -> (guess: (TextureFormat, bool))
    requires
        !(color_type is Palette),
    ensures
        guess == guessed_format(color_type),
{
    match color_type {
        ColorType::Gray(_bit_depth) => (TextureFormat::BC4_UNORM, false),
        ColorType::GrayA(_bit_depth) => (TextureFormat::BC4_UNORM, true),
        ColorType::RGB(_bit_depth) => (TextureFormat::BC7_UNORM, false),
        ColorType::RGBA(_bit_depth) => (TextureFormat::BC7_UNORM, true),
        ColorType::BGRA(_bit_depth) => (TextureFormat::BC7_UNORM, true),
        ColorType::BGR(_bit_depth) => (TextureFormat::BC1_UNORM, false),
        ColorType::Palette(_bit_depth) => {
            assert(false);
            (TextureFormat::UNKNOWN, false)
        },
    }
}

/// Law: the guessed format is always block-compressed, and the alpha flag that comes with
/// it is exactly whether the layout has an alpha channel.
pub proof fn lemma_guessed_format_is_bcn(color_type: ColorType)
    requires
        !(color_type is Palette),
    ensures
        is_bcn(guessed_format(color_type).0),
        guessed_format(color_type).1 == has_alpha_channel(color_type),
{
}

/// Pixel formats of the legacy (Direct3D 9) DDS header.
#[allow(non_camel_case_types)]
#[derive(Clone, Copy, Debug, PartialEq, Eq, Structural)]
pub enum D3dFormat {
    A8B8G8R8,
    G16R16,
    A2B10G10R10,
    A1R5G5B5,
    R5G6B5,
    A8,
    A8R8G8B8,
    X8R8G8B8,
    X8B8G8R8,
    A2R10G10B10,
    R8G8B8,
    X1R5G5B5,
    A4R4G4B4,
    X4R4G4B4,
    A8R3G3B2,
    A8L8,
    L16,
    L8,
    A4L4,
    DXT1,
    DXT3,
    DXT5,
    R8G8_B8G8,
    G8R8_G8B8,
    A16B16G16R16,
    Q16W16V16U16,
    R16F,
    G16R16F,
    A16B16G16R16F,
    R32F,
    G32R32F,
    A32B32G32R32F,
    DXT2,
    DXT4,
    UYVY,
    YUY2,
    CXV8U8,
}

/// What a DDS surface declares about itself: its pixel format (as a DXGI format code from an
/// extended header, or as a legacy format), its row pitch when known, its flags and sizes.
#[derive(Clone, Copy, Debug, PartialEq, Eq, Structural)]
pub struct DdsInfo {
    pub dxgi_format: Option<u32>,
    pub d3d_format: Option<D3dFormat>,
    pub pitch: Option<u32>,
    pub is_volume: bool,
    pub is_cubemap: bool,
    pub width: u32,
    pub height: u32,
    pub depth: u32,
    pub mip_levels: u32,
    pub array_layers: u32,
}

/// The texture format for a DXGI format code; `None` for the codes that are not handled.
pub open spec fn format_from_dxgi(code: u32) -> Option<TextureFormat> {
    if code == 0 {
        Some(TextureFormat::UNKNOWN)
    } else if code == 2 {
        Some(TextureFormat::R32G32B32A32_FLOAT)
    } else if code == 28 {
        Some(TextureFormat::R8G8B8A8_UNORM)
    } else if code == 29 {
        Some(TextureFormat::R8G8B8A8_SRGB)
    } else if code == 30 {
        Some(TextureFormat::R8G8B8A8_UINT)
    } else if code == 31 {
        Some(TextureFormat::R8G8B8A8_SNORM)
    } else if code == 32 {
        Some(TextureFormat::R8G8B8A8_SINT)
    } else if code == 71 {
        Some(TextureFormat::BC1_UNORM)
    } else if code == 72 {
        Some(TextureFormat::BC1_SRGB)
    } else if code == 74 {
        Some(TextureFormat::BC2_UNORM)
    } else if code == 75 {
        Some(TextureFormat::BC2_SRGB)
    } else if code == 77 {
        Some(TextureFormat::BC3_UNORM)
    } else if code == 78 {
        Some(TextureFormat::BC3_SRGB)
    } else if code == 80 {
        Some(TextureFormat::BC4_UNORM)
    } else if code == 81 {
        Some(TextureFormat::BC4_SNORM)
    } else if code == 83 {
        Some(TextureFormat::BC5_UNORM)
    } else if code == 84 {
        Some(TextureFormat::BC5_SNORM)
    } else if code == 95 {
        Some(TextureFormat::BC6U_FLOAT)
    } else if code == 96 {
        Some(TextureFormat::BC6S_FLOAT)
    } else if code == 98 {
        Some(TextureFormat::BC7_UNORM)
    } else if code == 99 {
        Some(TextureFormat::BC7_SRGB)
    } else {
        None
    }
}

/// The texture format for a legacy format; `None` for the formats that are not handled.
pub open spec fn format_from_d3d(format: D3dFormat) -> Option<TextureFormat> {
    match format {
        D3dFormat::G32R32F => Some(TextureFormat::R32G32_FLOAT),
        D3dFormat::A32B32G32R32F => Some(TextureFormat::R32G32B32A32_FLOAT),
        _ => None,
    }
}

/// The texture format a DDS surface declares: the DXGI format when there is one, else the
/// legacy format, else unknown. `None` when the declared format is not handled.
pub open spec fn dds_texture_format(info: DdsInfo) -> Option<TextureFormat> {
    match info.dxgi_format {
        Some(code) => format_from_dxgi(code),
        None => match info.d3d_format {
            Some(d3d) => format_from_d3d(d3d),
            None => Some(TextureFormat::UNKNOWN),
        },
    }
}

/// The texture format that a DDS surface declares. Only the formats this service produces
/// or reads back are handled.
pub fn get_dds_format(info: &DdsInfo) -> (format: TextureFormat)
    requires
        dds_texture_format(*info) is Some,
    ensures
        Some(format) == dds_texture_format(*info),
{
    if let Some(dxgi) = info.dxgi_format {
        match dxgi {
            0 => TextureFormat::UNKNOWN,
            2 => TextureFormat::R32G32B32A32_FLOAT,
            28 => TextureFormat::R8G8B8A8_UNORM,
            29 => TextureFormat::R8G8B8A8_SRGB,
            30 => TextureFormat::R8G8B8A8_UINT,
            31 => TextureFormat::R8G8B8A8_SNORM,
            32 => TextureFormat::R8G8B8A8_SINT,
            71 => TextureFormat::BC1_UNORM,
            72 => TextureFormat::BC1_SRGB,
            74 => TextureFormat::BC2_UNORM,
            75 => TextureFormat::BC2_SRGB,
            77 => TextureFormat::BC3_UNORM,
            78 => TextureFormat::BC3_SRGB,
            80 => TextureFormat::BC4_UNORM,
            81 => TextureFormat::BC4_SNORM,
            83 => TextureFormat::BC5_UNORM,
            84 => TextureFormat::BC5_SNORM,
            95 => TextureFormat::BC6U_FLOAT,
            96 => TextureFormat::BC6S_FLOAT,
            98 => TextureFormat::BC7_UNORM,
            99 => TextureFormat::BC7_SRGB,
            _ => {
                assert(false);
                TextureFormat::UNKNOWN
            },
        }
    } else if let Some(d3d) = info.d3d_format {
        match d3d {
            D3dFormat::G32R32F => TextureFormat::R32G32_FLOAT,
            D3dFormat::A32B32G32R32F => TextureFormat::R32G32B32A32_FLOAT,
            _ => {
                assert(false);
                TextureFormat::UNKNOWN
            },
        }
    } else {
        TextureFormat::UNKNOWN
    }
}

/// Whether the format that a DDS surface declares is handled (see `dds_texture_format`).
pub fn is_dds_format_handled(info: &DdsInfo) -> (handled: bool)
    ensures
        handled == dds_texture_format(*info) is Some,
{
    match info.dxgi_format {
        Some(code) => match code {
            0 | 2 | 28 | 29 | 30 | 31 | 32 | 71 | 72 | 74 | 75 | 77 | 78 | 80 | 81 | 83 | 84 | 95
            | 96 | 98 | 99 => true,
            _ => false,
        },
        None => match info.d3d_format {
            Some(D3dFormat::G32R32F) | Some(D3dFormat::A32B32G32R32F) => true,
            Some(_) => false,
            None => true,
        },
    }
}

/// The shape of a DDS surface: a volume, else a cube map, else a 2D texture when taller
/// than one row, else a 1D texture; arrays when there is more than one layer. A single 1D
/// texture is described as a 1D array, the schema having no plain 1D shape.
pub open spec fn dds_texture_type(info: DdsInfo) -> TextureType {
    if info.is_volume {
        TextureType::Tex3d
    } else if info.is_cubemap {
        TextureType::Cube
    } else if info.height > 1 {
        if info.array_layers > 1 {
            TextureType::Tex2dArray
        } else {
            TextureType::Tex2d
        }
    } else {
        TextureType::Tex1dArray
    }
}

/// Whether a DDS surface can be described: its format is handled and its pitch is known.
pub open spec fn dds_describable(info: DdsInfo) -> bool {
    dds_texture_format(info) is Some && info.pitch is Some
}

/// Whether a DDS surface can be described (see `dds_describable`).
pub fn is_dds_describable(info: &DdsInfo) -> (describable: bool)
    ensures
        describable == dds_describable(*info),
{
    is_dds_format_handled(info) && info.pitch.is_some()
}

/// The texture description of a DDS surface: its shape and format, its size, levels and
/// layers.
pub open spec fn dds_description(info: DdsInfo) -> TextureDescArgs {
    TextureDescArgs {
        type_: dds_texture_type(info),
        format: dds_texture_format(info)->0,
        width: info.width,
        height: info.height,
        depth: info.depth,
        levels: info.mip_levels,
        elements: info.array_layers,
    }
}

/// The texture description of a DDS surface, with a copy of its data.
pub fn extract_dds_result(info: &DdsInfo, data: &Vec<u8>) -> (result: (TextureDescArgs, Vec<u8>))
    requires
        dds_describable(*info),
    ensures
        result.0 == dds_description(*info),
        result.0.width == info.width && result.0.height == info.height && result.0.depth == info.depth,
        result.0.levels == info.mip_levels && result.0.elements == info.array_layers,
        result.1@ == data@,
{
    let format = get_dds_format(info);
    let texture_type = if info.is_volume {
        TextureType::Tex3d
    } else {
        let is_array = info.array_layers > 1;
        if info.is_cubemap {
            TextureType::Cube
        } else if info.height > 1 {
            if is_array {
                TextureType::Tex2dArray
            } else {
                TextureType::Tex2d
            }
        } else {
            TextureType::Tex1dArray
        }
    };
    let desc = TextureDescArgs {
        type_: texture_type,
        format,
        width: info.width,
        height: info.height,
        depth: info.depth,
        levels: info.mip_levels,
        elements: info.array_layers,
    };
    (desc, data.clone())
}

/// What a DDS file declares about its surface, as `ddsfile` reads it: as `DdsInfo`, but with
/// the legacy pixel format given by its place among the variants of `ddsfile::D3DFormat`.
#[derive(Clone, Copy, Debug, PartialEq, Eq, Structural)]
pub struct DdsFields {
    pub dxgi_format: Option<u32>,
    pub d3d_index: Option<u32>,
    pub pitch: Option<u32>,
    pub is_volume: bool,
    pub is_cubemap: bool,
    pub width: u32,
    pub height: u32,
    pub depth: u32,
    pub mip_levels: u32,
    pub array_layers: u32,
}

/// The legacy pixel format at place `index` among the variants of `ddsfile::D3DFormat`,
/// which are declared in the order of `D3dFormat`.
pub open spec fn d3d_format_at(index: u32) -> Option<D3dFormat> {
    match index {
        0 => Some(D3dFormat::A8B8G8R8),
        1 => Some(D3dFormat::G16R16),
        2 => Some(D3dFormat::A2B10G10R10),
        3 => Some(D3dFormat::A1R5G5B5),
        4 => Some(D3dFormat::R5G6B5),
        5 => Some(D3dFormat::A8),
        6 => Some(D3dFormat::A8R8G8B8),
        7 => Some(D3dFormat::X8R8G8B8),
        8 => Some(D3dFormat::X8B8G8R8),
        9 => Some(D3dFormat::A2R10G10B10),
        10 => Some(D3dFormat::R8G8B8),
        11 => Some(D3dFormat::X1R5G5B5),
        12 => Some(D3dFormat::A4R4G4B4),
        13 => Some(D3dFormat::X4R4G4B4),
        14 => Some(D3dFormat::A8R3G3B2),
        15 => Some(D3dFormat::A8L8),
        16 => Some(D3dFormat::L16),
        17 => Some(D3dFormat::L8),
        18 => Some(D3dFormat::A4L4),
        19 => Some(D3dFormat::DXT1),
        20 => Some(D3dFormat::DXT3),
        21 => Some(D3dFormat::DXT5),
        22 => Some(D3dFormat::R8G8_B8G8),
        23 => Some(D3dFormat::G8R8_G8B8),
        24 => Some(D3dFormat::A16B16G16R16),
        25 => Some(D3dFormat::Q16W16V16U16),
        26 => Some(D3dFormat::R16F),
        27 => Some(D3dFormat::G16R16F),
        28 => Some(D3dFormat::A16B16G16R16F),
        29 => Some(D3dFormat::R32F),
        30 => Some(D3dFormat::G32R32F),
        31 => Some(D3dFormat::A32B32G32R32F),
        32 => Some(D3dFormat::DXT2),
        33 => Some(D3dFormat::DXT4),
        34 => Some(D3dFormat::UYVY),
        35 => Some(D3dFormat::YUY2),
        36 => Some(D3dFormat::CXV8U8),
        _ => None,
    }
}

/// The legacy pixel format at place `index` among the variants of `ddsfile::D3DFormat`.
pub fn d3d_format_from_index(index: u32) -> (format: Option<D3dFormat>)
    ensures
        format == d3d_format_at(index),
{
    match index {
        0 => Some(D3dFormat::A8B8G8R8),
        1 => Some(D3dFormat::G16R16),
        2 => Some(D3dFormat::A2B10G10R10),
        3 => Some(D3dFormat::A1R5G5B5),
        4 => Some(D3dFormat::R5G6B5),
        5 => Some(D3dFormat::A8),
        6 => Some(D3dFormat::A8R8G8B8),
        7 => Some(D3dFormat::X8R8G8B8),
        8 => Some(D3dFormat::X8B8G8R8),
        9 => Some(D3dFormat::A2R10G10B10),
        10 => Some(D3dFormat::R8G8B8),
        11 => Some(D3dFormat::X1R5G5B5),
        12 => Some(D3dFormat::A4R4G4B4),
        13 => Some(D3dFormat::X4R4G4B4),
        14 => Some(D3dFormat::A8R3G3B2),
        15 => Some(D3dFormat::A8L8),
        16 => Some(D3dFormat::L16),
        17 => Some(D3dFormat::L8),
        18 => Some(D3dFormat::A4L4),
        19 => Some(D3dFormat::DXT1),
        20 => Some(D3dFormat::DXT3),
        21 => Some(D3dFormat::DXT5),
        22 => Some(D3dFormat::R8G8_B8G8),
        23 => Some(D3dFormat::G8R8_G8B8),
        24 => Some(D3dFormat::A16B16G16R16),
        25 => Some(D3dFormat::Q16W16V16U16),
        26 => Some(D3dFormat::R16F),
        27 => Some(D3dFormat::G16R16F),
        28 => Some(D3dFormat::A16B16G16R16F),
        29 => Some(D3dFormat::R32F),
        30 => Some(D3dFormat::G32R32F),
        31 => Some(D3dFormat::A32B32G32R32F),
        32 => Some(D3dFormat::DXT2),
        33 => Some(D3dFormat::DXT4),
        34 => Some(D3dFormat::UYVY),
        35 => Some(D3dFormat::YUY2),
        36 => Some(D3dFormat::CXV8U8),
        _ => None,
    }
}

/// What a DDS surface declares, from what `ddsfile` reads (a place past the legacy formats
/// reads as no legacy format).
pub open spec fn dds_info_of(fields: DdsFields) -> DdsInfo {
    DdsInfo {
        dxgi_format: fields.dxgi_format,
        d3d_format: match fields.d3d_index {
            Some(index) => d3d_format_at(index),
            None => None,
        },
        pitch: fields.pitch,
        is_volume: fields.is_volume,
        is_cubemap: fields.is_cubemap,
        width: fields.width,
        height: fields.height,
        depth: fields.depth,
        mip_levels: fields.mip_levels,
        array_layers: fields.array_layers,
    }
}

/// The number that the four bytes of `bytes` from `at` spell, least significant first.
pub open spec fn le_u32_at(bytes: Seq<u8>, at: int) -> u32 {
    (bytes[at] + 256 * bytes[at + 1] + 65536 * bytes[at + 2] + 16777216 * bytes[at + 3]) as u32
}

/// Whether `bytes` start with headers that `Dds::read` accepts and reads as a 2D surface in a
/// block-compressed format of the encoders, as `Dds::write` lays them out for a new surface:
/// 148 bytes or more; the magic number `DDS `; the header's size (124); header flags without
/// the depth (`0x80_0000`) and mip map count (`0x2_0000`) flags; a width of at most
/// `0x01FF_FFFF` texels (see `pitch_arithmetic_fits`); the pixel format's size (32), flags (only the
/// four-character code) and code (`DX10`); empty `caps2`; then the extended header's DXGI
/// code (one of the encoders'), a 2D resource dimension (3) and a straight or opaque alpha
/// mode (1 or 3).
pub open spec fn declares_block_surface(bytes: Seq<u8>) -> bool {
    &&& bytes.len() >= 148
    &&& bytes.subrange(0, 4) == seq![68u8, 68u8, 83u8, 32u8]
    &&& bytes.subrange(4, 8) == le_u32_bytes(124)
    &&& le_u32_at(bytes, 8) & 0x0082_0000u32 == 0
    &&& le_u32_at(bytes, 16) <= 0x01FF_FFFF
    &&& bytes.subrange(76, 80) == le_u32_bytes(32)
    &&& bytes.subrange(80, 84) == le_u32_bytes(4)
    &&& bytes.subrange(84, 88) == le_u32_bytes(0x30315844)
    &&& bytes.subrange(112, 116) == le_u32_bytes(0)
    &&& (le_u32_at(bytes, 128) == 71 || le_u32_at(bytes, 128) == 77 || le_u32_at(bytes, 128) == 96
        || le_u32_at(bytes, 128) == 98)
    &&& bytes.subrange(132, 136) == le_u32_bytes(3)
    &&& (bytes.subrange(144, 148) == le_u32_bytes(1) || bytes.subrange(144, 148) == le_u32_bytes(3))
}

/// The four bytes of a number spell it back.
proof fn lemma_le_u32_round_trip(bytes: Seq<u8>, at: int, value: u32)
    requires
        0 <= at,
        at + 4 <= bytes.len(),
        bytes.subrange(at, at + 4) == le_u32_bytes(value),
    ensures
        le_u32_at(bytes, at) == value,
{
    assert(bytes[at] == le_u32_bytes(value)[0]);
    assert(bytes[at + 1] == le_u32_bytes(value)[1]);
    assert(bytes[at + 2] == le_u32_bytes(value)[2]);
    assert(bytes[at + 3] == le_u32_bytes(value)[3]);
    assert((value % 256) + 256 * ((value / 256) % 256) + 65536 * ((value / 65536) % 256) + 16777216 * (
    value / 16777216) == value) by (bit_vector);
}

/// Headers of a single-layer 2D surface in an encoder's format are headers that `Dds::read`
/// accepts, and spell the surface's size, format and layer count.
pub proof fn lemma_declared_surface_is_read(
    bytes: Seq<u8>,
    height: u32,
    width: u32,
    format: DdsBlockFormat,
    alpha: bool,
)
    requires
        declared_surface(bytes, height, width, format, alpha),
        width <= 0x01FF_FFFF,
    ensures
        declares_block_surface(bytes),
        le_u32_at(bytes, 12) == height,
        le_u32_at(bytes, 16) == width,
        le_u32_at(bytes, 128) == dxgi_code(format),
        le_u32_at(bytes, 140) == 1,
{
    lemma_le_u32_round_trip(bytes, 8, 0x0008_1007);
    assert(0x0008_1007u32 & 0x0082_0000u32 == 0) by (bit_vector);
    lemma_le_u32_round_trip(bytes, 12, height);
    lemma_le_u32_round_trip(bytes, 16, width);
    lemma_le_u32_round_trip(bytes, 128, dxgi_code(format));
    lemma_le_u32_round_trip(bytes, 140, 1);
}

/// Headers of a block-compressed surface keep `ddsfile`'s pitch arithmetic in range: their
/// width is bounded, and their pixel format marks neither RGB nor luminance data.
proof fn lemma_block_surface_pitch_fits(bytes: Seq<u8>)
    requires
        declares_block_surface(bytes),
    ensures
        pitch_arithmetic_fits(bytes),
{
    lemma_le_u32_round_trip(bytes, 80, 4);
    assert((4u32 & 0x40u32) == 0 && (4u32 & 0x2_0000u32) == 0) by (bit_vector);
}

/// Whether the pitch that `ddsfile` computes for the surface that `bytes` declare stays within
/// its 32-bit arithmetic: a file too short to hold the headers is never read that far;
/// otherwise the declared width (bytes 16 to 20) is at most `0x01FF_FFFF` texels, so that
/// every format's pitch fits (at most 128 bits per texel), and where the pixel format's flags
/// (bytes 80 to 84) mark RGB (`0x40`) or luminance (`0x2_0000`) data, its bit count (bytes 88
/// to 92) times the width, plus 7, fits in 32 bits.
pub open spec fn pitch_arithmetic_fits(bytes: Seq<u8>) -> bool {
    bytes.len() >= 128 ==> {
        let width = le_u32_at(bytes, 16);
        let flags = le_u32_at(bytes, 80);
        &&& width <= 0x01FF_FFFF
        &&& ((flags & 0x40u32) != 0 || (flags & 0x2_0000u32) != 0) ==> le_u32_at(bytes, 88) * width
            + 7 <= u32::MAX
    }
}

/// The number that the four bytes of `bytes` from `at` spell, least significant first.
fn u32_le_at(bytes: &[u8], at: usize) -> (value: u32)
    requires
        at + 4 <= bytes@.len(),
    ensures
        value == le_u32_at(bytes@, at as int),
{
    let b0: u32 = bytes[at] as u32;
    let b1: u32 = bytes[at + 1] as u32;
    let b2: u32 = bytes[at + 2] as u32;
    let b3: u32 = bytes[at + 3] as u32;
    b0 + 256 * b1 + 65536 * b2 + 16777216 * b3
}

/// Whether `ddsfile`'s pitch arithmetic stays in range on `bytes` (see `pitch_arithmetic_fits`).
pub fn is_pitch_arithmetic_fitting(bytes: &[u8]) -> (fits: bool)
    ensures
        fits == pitch_arithmetic_fits(bytes@),
{
    if bytes.len() < 128 {
        return true;
    }
    let width = u32_le_at(bytes, 16);
    let flags = u32_le_at(bytes, 80);
    if width > 0x01FF_FFFF {
        return false;
    }
    if (flags & 0x40u32) != 0 || (flags & 0x2_0000u32) != 0 {
        let bit_count = u32_le_at(bytes, 88);
        assert((bit_count as u64) * (width as u64) <= 0xFFFF_FFFF * 0x01FF_FFFF) by (nonlinear_arith)
            requires
                width <= 0x01FF_FFFF,
        ;
        let product: u64 = (bit_count as u64) * (width as u64);
        product + 7 <= 0xFFFF_FFFF
    } else {
        true
    }
}

/// What `ddsfile` reads from the bytes of a DDS file: the surface's declarations and its data;
/// `None` where it cannot read them.
pub uninterp spec fn dds_parsed(bytes: Seq<u8>) -> Option<(DdsFields, Seq<u8>)>;

/// Reads a DDS file with `Dds::read` and takes, through the crate's getters, what its surface
/// declares: the DXGI format (as its code) or the legacy format (as its place), the pitch, the
/// volume and cube map flags of `caps2`, the sizes, levels and layers; with the data. The
/// domain leaves out the files on which `get_pitch` would overflow its 32-bit arithmetic (see
/// `pitch_arithmetic_fits`). The contract names the result, which depends on the bytes alone,
/// and claims what the crate's source reads from bytes that start with the headers that
/// `Dds::write` gives a new 2D surface in a block-compressed format (see `declared_surface`):
/// the read succeeds (the magic number, the structure sizes, the DXGI code, the resource
/// dimension and the alpha mode are those it accepts), and gives back that format's code, the
/// width, height and one layer, a depth of one and one level (the header flags mark neither,
/// so the getters fall back to one), no volume or cube map flag, a pitch (the format has a block
/// size), and the bytes after the headers as data.
#[verifier::external_body]
fn dds_parse(bytes: &[u8]) -> (parsed: Option<(DdsFields, Vec<u8>)>)
    requires
        pitch_arithmetic_fits(bytes@),
    ensures
        match parsed {
            Some((fields, data)) => dds_parsed(bytes@) == Some((fields, data@)),
            None => dds_parsed(bytes@) is None,
        },
        declares_block_surface(bytes@) ==> parsed is Some,
        match parsed {
            Some((fields, data)) => declares_block_surface(bytes@) ==> {
                &&& fields.dxgi_format == Some(le_u32_at(bytes@, 128))
                &&& fields.height == le_u32_at(bytes@, 12)
                &&& fields.width == le_u32_at(bytes@, 16)
                &&& fields.array_layers == le_u32_at(bytes@, 140)
                &&& fields.depth == 1 && fields.mip_levels == 1
                &&& !fields.is_volume && !fields.is_cubemap && fields.pitch is Some
                &&& data@ == bytes@.subrange(148, bytes@.len() as int)
            },
            None => true,
        },
{
    let dds = ddsfile::Dds::read(&mut std::io::Cursor::new(bytes)).ok()?;
    let fields = DdsFields {
        dxgi_format: match dds.get_dxgi_format() { Some(format) => Some(format as u32), None => None },
        d3d_index: match dds.get_d3d_format() { Some(format) => Some(format as u32), None => None },
        pitch: dds.get_pitch(),
        is_volume: dds.header.caps2.contains(ddsfile::Caps2::VOLUME),
        is_cubemap: dds.header.caps2.contains(ddsfile::Caps2::CUBEMAP),
        width: dds.get_width(), height: dds.get_height(), depth: dds.get_depth(),
        mip_levels: dds.get_num_mipmap_levels(), array_layers: dds.get_num_array_layers(),
    };
    Some((fields, dds.data))
}

/// The description of the surface of a DDS file, with its data. `None` where the file's
/// declared width or bit count is beyond what `ddsfile` computes a pitch for (see
/// `pitch_arithmetic_fits`), where the file cannot be read, or where its surface cannot be
/// described (see `dds_describable`).
pub fn read_dds_result(bytes: &[u8]) -> (out: Option<(TextureDescArgs, Vec<u8>)>)
    ensures
        out is Some <==> (pitch_arithmetic_fits(bytes@) && (dds_parsed(bytes@) matches Some((fields, _))
            && dds_describable(dds_info_of(fields)))),
        out matches Some((desc, data)) ==> (dds_parsed(bytes@) matches Some((fields, parsed_data))
            && desc == dds_description(dds_info_of(fields)) && data@ == parsed_data),
        forall|height: u32, width: u32, format: DdsBlockFormat, alpha: bool|
            #[trigger] declared_surface(bytes@, height, width, format, alpha) && width <= 0x01FF_FFFF
                ==> (out matches Some((desc, data)) && desc.format == block_texture_format(format)
                && desc.width == width && desc.height == height && desc.elements == 1
                && desc.depth == 1 && desc.levels == 1
                && desc.type_ == (if height > 1 { TextureType::Tex2d } else { TextureType::Tex1dArray })
                && data@ == bytes@.subrange(148, bytes@.len() as int)),
{
    if !is_pitch_arithmetic_fitting(bytes) {
        proof {
            assert forall|height: u32, width: u32, format: DdsBlockFormat, alpha: bool|
                #[trigger] declared_surface(bytes@, height, width, format, alpha) && width <= 0x01FF_FFFF
                implies false by {
                lemma_declared_surface_is_read(bytes@, height, width, format, alpha);
                lemma_block_surface_pitch_fits(bytes@);
            }
        }
        return None;
    }
    let parsed = dds_parse(bytes);
    proof {
        assert forall|height: u32, width: u32, format: DdsBlockFormat, alpha: bool|
            #[trigger] declared_surface(bytes@, height, width, format, alpha) && width <= 0x01FF_FFFF
            implies declares_block_surface(bytes@) && le_u32_at(bytes@, 128) == dxgi_code(format)
                && le_u32_at(bytes@, 12) == height && le_u32_at(bytes@, 16) == width
                && le_u32_at(bytes@, 140) == 1 by {
            lemma_declared_surface_is_read(bytes@, height, width, format, alpha);
        }
    }
    let (fields, data) = match parsed {
        Some(parsed) => parsed,
        None => return None,
    };
    let d3d_format = match fields.d3d_index {
        Some(index) => d3d_format_from_index(index),
        None => None,
    };
    let info = DdsInfo {
        dxgi_format: fields.dxgi_format,
        d3d_format,
        pitch: fields.pitch,
        is_volume: fields.is_volume,
        is_cubemap: fields.is_cubemap,
        width: fields.width,
        height: fields.height,
        depth: fields.depth,
        mip_levels: fields.mip_levels,
        array_layers: fields.array_layers,
    };
    if !is_dds_describable(&info) {
        return None;
    }
    Some(extract_dds_result(&info, &data))
}

/// Settings of the BC6H encoder, field for field those of `intel_tex::bc6h::EncodeSettings`.
#[derive(Clone, Copy, Debug, PartialEq, Eq, Structural)]
pub struct Bc6hSettings {
    pub slow_mode: bool,
    pub fast_mode: bool,
    pub refine_iterations_1p: u32,
    pub refine_iterations_2p: u32,
    pub fast_skip_threshold: u32,
}

/// Settings of the BC7 encoder, field for field those of `intel_tex::bc7::EncodeSettings`.
#[derive(Clone, Copy, Debug)]
pub struct Bc7Settings {
    pub mode_selection: [bool; 4],
    pub refine_iterations: [u32; 8],
    pub skip_mode2: bool,
    pub fast_skip_threshold_mode1: u32,
    pub fast_skip_threshold_mode3: u32,
    pub fast_skip_threshold_mode7: u32,
    pub mode45_channel0: u32,
    pub refine_iterations_channel: u32,
    pub channels: i32,
}

/// The BC6H preset of `intel_tex` for a quality, with the field values of the crate's source.
pub open spec fn bc6h_preset(quality: Bc6hQuality) -> Bc6hSettings {
    match quality {
        Bc6hQuality::VeryFast => Bc6hSettings {
            slow_mode: false,
            fast_mode: true,
            refine_iterations_1p: 0,
            refine_iterations_2p: 0,
            fast_skip_threshold: 0,
        },
        Bc6hQuality::Basic => Bc6hSettings {
            slow_mode: false,
            fast_mode: false,
            refine_iterations_1p: 2,
            refine_iterations_2p: 2,
            fast_skip_threshold: 4,
        },
        Bc6hQuality::Slow => Bc6hSettings {
            slow_mode: true,
            fast_mode: false,
            refine_iterations_1p: 2,
            refine_iterations_2p: 2,
            fast_skip_threshold: 10,
        },
        Bc6hQuality::VerySlow => Bc6hSettings {
            slow_mode: true,
            fast_mode: false,
            refine_iterations_1p: 2,
            refine_iterations_2p: 2,
            fast_skip_threshold: 32,
        },
    }
}

/// Whether BC7 settings hold these field values: channels, mode selection, the fast-skip
/// thresholds of modes 1, 3 and 7, whether mode 2 is skipped, the channel of modes 4 and 5,
/// the channel refinement and the refinement of each mode.
pub open spec fn bc7_fields_are(
    settings: Bc7Settings,
    channels: i32,
    mode_selection: Seq<bool>,
    fast_skip_threshold_mode1: u32,
    fast_skip_threshold_mode3: u32,
    fast_skip_threshold_mode7: u32,
    skip_mode2: bool,
    mode45_channel0: u32,
    refine_iterations_channel: u32,
    refine_iterations: Seq<u32>,
) -> bool {
    &&& settings.channels == channels
    &&& settings.mode_selection@ == mode_selection
    &&& settings.fast_skip_threshold_mode1 == fast_skip_threshold_mode1
    &&& settings.fast_skip_threshold_mode3 == fast_skip_threshold_mode3
    &&& settings.fast_skip_threshold_mode7 == fast_skip_threshold_mode7
    &&& settings.skip_mode2 == skip_mode2
    &&& settings.mode45_channel0 == mode45_channel0
    &&& settings.refine_iterations_channel == refine_iterations_channel
    &&& settings.refine_iterations@ == refine_iterations
}

/// Whether BC7 settings are the preset of `intel_tex` for a quality, among the presets for images with alpha when
/// `alpha` holds and among the opaque presets otherwise, with the field values of the crate's
/// source.
pub open spec fn bc7_preset(settings: Bc7Settings, quality: Bc7Quality, alpha: bool) -> bool {
    if alpha {
        match quality {
            Bc7Quality::UltraFast => bc7_fields_are(
                settings,
                4,
                seq![false, false, true, true],
                0,
                0,
                4,
                true,
                3,
                1,
                seq![2, 1, 2, 1, 1, 1, 2, 2],
            ),
            Bc7Quality::VeryFast => bc7_fields_are(
                settings,
                4,
                seq![false, true, true, true],
                0,
                0,
                4,
                true,
                3,
                2,
                seq![2, 1, 2, 1, 2, 2, 2, 2],
            ),
            Bc7Quality::Fast => bc7_fields_are(
                settings,
                4,
                seq![false, true, true, true],
                4,
                4,
                8,
                true,
                3,
                2,
                seq![2, 1, 2, 1, 2, 2, 2, 2],
            ),
            Bc7Quality::Basic => bc7_fields_are(
                settings,
                4,
                seq![true, true, true, true],
                12,
                8,
                4,
                true,
                0,
                2,
                seq![2, 2, 2, 2, 2, 2, 2, 2],
            ),
            Bc7Quality::Slow => bc7_fields_are(
                settings,
                4,
                seq![true, true, true, true],
                64,
                64,
                64,
                false,
                0,
                4,
                seq![4, 4, 4, 4, 4, 4, 4, 4],
            ),
        }
    } else {
        match quality {
            Bc7Quality::UltraFast => bc7_fields_are(
                settings,
                3,
                seq![false, false, false, true],
                3,
                1,
                0,
                true,
                0,
                0,
                seq![2, 2, 2, 1, 2, 2, 1, 0],
            ),
            Bc7Quality::VeryFast => bc7_fields_are(
                settings,
                3,
                seq![false, true, false, true],
                3,
                1,
                0,
                true,
                0,
                0,
                seq![2, 2, 2, 1, 2, 2, 1, 0],
            ),
            Bc7Quality::Fast => bc7_fields_are(
                settings,
                3,
                seq![false, true, false, true],
                12,
                4,
                0,
                true,
                0,
                0,
                seq![2, 2, 2, 1, 2, 2, 2, 0],
            ),
            Bc7Quality::Basic => bc7_fields_are(
                settings,
                3,
                seq![true, true, true, true],
                12,
                8,
                0,
                true,
                0,
                2,
                seq![2, 2, 2, 2, 2, 2, 2, 0],
            ),
            Bc7Quality::Slow => bc7_fields_are(
                settings,
                3,
                seq![true, true, true, true],
                64,
                64,
                0,
                false,
                0,
                4,
                seq![4, 4, 4, 4, 4, 4, 4, 0],
            ),
        }
    }
}

/// The `intel_tex` preset `bc6h::very_fast_settings`, field for field. The contract claims the
/// field values of the crate's source.
#[verifier::external_body]
fn bc6h_very_fast_settings() -> (settings: Bc6hSettings)
    ensures
        settings == bc6h_preset(Bc6hQuality::VeryFast),
{
    let s = intel_tex::bc6h::very_fast_settings();
    Bc6hSettings {
        slow_mode: s.slow_mode,
        fast_mode: s.fast_mode,
        refine_iterations_1p: s.refine_iterations_1p,
        refine_iterations_2p: s.refine_iterations_2p,
        fast_skip_threshold: s.fast_skip_threshold,
    }
}

/// The `intel_tex` preset `bc6h::basic_settings`, field for field. The contract claims the
/// field values of the crate's source.
#[verifier::external_body]
fn bc6h_basic_settings() -> (settings: Bc6hSettings)
    ensures
        settings == bc6h_preset(Bc6hQuality::Basic),
{
    let s = intel_tex::bc6h::basic_settings();
    Bc6hSettings {
        slow_mode: s.slow_mode,
        fast_mode: s.fast_mode,
        refine_iterations_1p: s.refine_iterations_1p,
        refine_iterations_2p: s.refine_iterations_2p,
        fast_skip_threshold: s.fast_skip_threshold,
    }
}

/// The `intel_tex` preset `bc6h::slow_settings`, field for field. The contract claims the
/// field values of the crate's source.
#[verifier::external_body]
fn bc6h_slow_settings() -> (settings: Bc6hSettings)
    ensures
        settings == bc6h_preset(Bc6hQuality::Slow),
{
    let s = intel_tex::bc6h::slow_settings();
    Bc6hSettings {
        slow_mode: s.slow_mode,
        fast_mode: s.fast_mode,
        refine_iterations_1p: s.refine_iterations_1p,
        refine_iterations_2p: s.refine_iterations_2p,
        fast_skip_threshold: s.fast_skip_threshold,
    }
}

/// The `intel_tex` preset `bc6h::very_slow_settings`, field for field. The contract claims the
/// field values of the crate's source.
#[verifier::external_body]
fn bc6h_very_slow_settings() -> (settings: Bc6hSettings)
    ensures
        settings == bc6h_preset(Bc6hQuality::VerySlow),
{
    let s = intel_tex::bc6h::very_slow_settings();
    Bc6hSettings {
        slow_mode: s.slow_mode,
        fast_mode: s.fast_mode,
        refine_iterations_1p: s.refine_iterations_1p,
        refine_iterations_2p: s.refine_iterations_2p,
        fast_skip_threshold: s.fast_skip_threshold,
    }
}

/// The `intel_tex` preset `bc7::alpha_ultra_fast_settings`, field for field. The contract claims the
/// field values of the crate's source.
#[verifier::external_body]
fn bc7_alpha_ultra_fast_settings() -> (settings: Bc7Settings)
    ensures
        bc7_preset(settings, Bc7Quality::UltraFast, true),
{
    let s = intel_tex::bc7::alpha_ultra_fast_settings();
    Bc7Settings {
        mode_selection: s.mode_selection,
        refine_iterations: s.refine_iterations,
        skip_mode2: s.skip_mode2,
        fast_skip_threshold_mode1: s.fast_skip_threshold_mode1,
        fast_skip_threshold_mode3: s.fast_skip_threshold_mode3,
        fast_skip_threshold_mode7: s.fast_skip_threshold_mode7,
        mode45_channel0: s.mode45_channel0,
        refine_iterations_channel: s.refine_iterations_channel,
        channels: s.channels,
    }
}

/// The `intel_tex` preset `bc7::alpha_very_fast_settings`, field for field. The contract claims the
/// field values of the crate's source.
#[verifier::external_body]
fn bc7_alpha_very_fast_settings() -> (settings: Bc7Settings)
    ensures
        bc7_preset(settings, Bc7Quality::VeryFast, true),
{
    let s = intel_tex::bc7::alpha_very_fast_settings();
    Bc7Settings {
        mode_selection: s.mode_selection,
        refine_iterations: s.refine_iterations,
        skip_mode2: s.skip_mode2,
        fast_skip_threshold_mode1: s.fast_skip_threshold_mode1,
        fast_skip_threshold_mode3: s.fast_skip_threshold_mode3,
        fast_skip_threshold_mode7: s.fast_skip_threshold_mode7,
        mode45_channel0: s.mode45_channel0,
        refine_iterations_channel: s.refine_iterations_channel,
        channels: s.channels,
    }
}

/// The `intel_tex` preset `bc7::alpha_fast_settings`, field for field. The contract claims the
/// field values of the crate's source.
#[verifier::external_body]
fn bc7_alpha_fast_settings() -> (settings: Bc7Settings)
    ensures
        bc7_preset(settings, Bc7Quality::Fast, true),
{
    let s = intel_tex::bc7::alpha_fast_settings();
    Bc7Settings {
        mode_selection: s.mode_selection,
        refine_iterations: s.refine_iterations,
        skip_mode2: s.skip_mode2,
        fast_skip_threshold_mode1: s.fast_skip_threshold_mode1,
        fast_skip_threshold_mode3: s.fast_skip_threshold_mode3,
        fast_skip_threshold_mode7: s.fast_skip_threshold_mode7,
        mode45_channel0: s.mode45_channel0,
        refine_iterations_channel: s.refine_iterations_channel,
        channels: s.channels,
    }
}

/// The `intel_tex` preset `bc7::alpha_basic_settings`, field for field. The contract claims the
/// field values of the crate's source.
#[verifier::external_body]
fn bc7_alpha_basic_settings() -> (settings: Bc7Settings)
    ensures
        bc7_preset(settings, Bc7Quality::Basic, true),
{
    let s = intel_tex::bc7::alpha_basic_settings();
    Bc7Settings {
        mode_selection: s.mode_selection,
        refine_iterations: s.refine_iterations,
        skip_mode2: s.skip_mode2,
        fast_skip_threshold_mode1: s.fast_skip_threshold_mode1,
        fast_skip_threshold_mode3: s.fast_skip_threshold_mode3,
        fast_skip_threshold_mode7: s.fast_skip_threshold_mode7,
        mode45_channel0: s.mode45_channel0,
        refine_iterations_channel: s.refine_iterations_channel,
        channels: s.channels,
    }
}

/// The `intel_tex` preset `bc7::alpha_slow_settings`, field for field. The contract claims the
/// field values of the crate's source.
#[verifier::external_body]
fn bc7_alpha_slow_settings() -> (settings: Bc7Settings)
    ensures
        bc7_preset(settings, Bc7Quality::Slow, true),
{
    let s = intel_tex::bc7::alpha_slow_settings();
    Bc7Settings {
        mode_selection: s.mode_selection,
        refine_iterations: s.refine_iterations,
        skip_mode2: s.skip_mode2,
        fast_skip_threshold_mode1: s.fast_skip_threshold_mode1,
        fast_skip_threshold_mode3: s.fast_skip_threshold_mode3,
        fast_skip_threshold_mode7: s.fast_skip_threshold_mode7,
        mode45_channel0: s.mode45_channel0,
        refine_iterations_channel: s.refine_iterations_channel,
        channels: s.channels,
    }
}

/// The `intel_tex` preset `bc7::opaque_ultra_fast_settings`, field for field. The contract claims the
/// field values of the crate's source.
#[verifier::external_body]
fn bc7_opaque_ultra_fast_settings() -> (settings: Bc7Settings)
    ensures
        bc7_preset(settings, Bc7Quality::UltraFast, false),
{
    let s = intel_tex::bc7::opaque_ultra_fast_settings();
    Bc7Settings {
        mode_selection: s.mode_selection,
        refine_iterations: s.refine_iterations,
        skip_mode2: s.skip_mode2,
        fast_skip_threshold_mode1: s.fast_skip_threshold_mode1,
        fast_skip_threshold_mode3: s.fast_skip_threshold_mode3,
        fast_skip_threshold_mode7: s.fast_skip_threshold_mode7,
        mode45_channel0: s.mode45_channel0,
        refine_iterations_channel: s.refine_iterations_channel,
        channels: s.channels,
    }
}

/// The `intel_tex` preset `bc7::opaque_very_fast_settings`, field for field. The contract claims the
/// field values of the crate's source.
#[verifier::external_body]
fn bc7_opaque_very_fast_settings() -> (settings: Bc7Settings)
    ensures
        bc7_preset(settings, Bc7Quality::VeryFast, false),
{
    let s = intel_tex::bc7::opaque_very_fast_settings();
    Bc7Settings {
        mode_selection: s.mode_selection,
        refine_iterations: s.refine_iterations,
        skip_mode2: s.skip_mode2,
        fast_skip_threshold_mode1: s.fast_skip_threshold_mode1,
        fast_skip_threshold_mode3: s.fast_skip_threshold_mode3,
        fast_skip_threshold_mode7: s.fast_skip_threshold_mode7,
        mode45_channel0: s.mode45_channel0,
        refine_iterations_channel: s.refine_iterations_channel,
        channels: s.channels,
    }
}

/// The `intel_tex` preset `bc7::opaque_fast_settings`, field for field. The contract claims the
/// field values of the crate's source.
#[verifier::external_body]
fn bc7_opaque_fast_settings() -> (settings: Bc7Settings)
    ensures
        bc7_preset(settings, Bc7Quality::Fast, false),
{
    let s = intel_tex::bc7::opaque_fast_settings();
    Bc7Settings {
        mode_selection: s.mode_selection,
        refine_iterations: s.refine_iterations,
        skip_mode2: s.skip_mode2,
        fast_skip_threshold_mode1: s.fast_skip_threshold_mode1,
        fast_skip_threshold_mode3: s.fast_skip_threshold_mode3,
        fast_skip_threshold_mode7: s.fast_skip_threshold_mode7,
        mode45_channel0: s.mode45_channel0,
        refine_iterations_channel: s.refine_iterations_channel,
        channels: s.channels,
    }
}

/// The `intel_tex` preset `bc7::opaque_basic_settings`, field for field. The contract claims the
/// field values of the crate's source.
#[verifier::external_body]
fn bc7_opaque_basic_settings() -> (settings: Bc7Settings)
    ensures
        bc7_preset(settings, Bc7Quality::Basic, false),
{
    let s = intel_tex::bc7::opaque_basic_settings();
    Bc7Settings {
        mode_selection: s.mode_selection,
        refine_iterations: s.refine_iterations,
        skip_mode2: s.skip_mode2,
        fast_skip_threshold_mode1: s.fast_skip_threshold_mode1,
        fast_skip_threshold_mode3: s.fast_skip_threshold_mode3,
        fast_skip_threshold_mode7: s.fast_skip_threshold_mode7,
        mode45_channel0: s.mode45_channel0,
        refine_iterations_channel: s.refine_iterations_channel,
        channels: s.channels,
    }
}

/// The `intel_tex` preset `bc7::opaque_slow_settings`, field for field. The contract claims the
/// field values of the crate's source.
#[verifier::external_body]
fn bc7_opaque_slow_settings() -> (settings: Bc7Settings)
    ensures
        bc7_preset(settings, Bc7Quality::Slow, false),
{
    let s = intel_tex::bc7::opaque_slow_settings();
    Bc7Settings {
        mode_selection: s.mode_selection,
        refine_iterations: s.refine_iterations,
        skip_mode2: s.skip_mode2,
        fast_skip_threshold_mode1: s.fast_skip_threshold_mode1,
        fast_skip_threshold_mode3: s.fast_skip_threshold_mode3,
        fast_skip_threshold_mode7: s.fast_skip_threshold_mode7,
        mode45_channel0: s.mode45_channel0,
        refine_iterations_channel: s.refine_iterations_channel,
        channels: s.channels,
    }
}

/// The BC6H encoder preset for a quality: very fast, basic, slow or very slow.
pub fn get_bc6h_settings(quality: Bc6hQuality) -> (settings: Bc6hSettings)
    ensures
        settings == bc6h_preset(quality),
{
    match quality {
        Bc6hQuality::VeryFast => bc6h_very_fast_settings(),
        Bc6hQuality::Basic => bc6h_basic_settings(),
        Bc6hQuality::Slow => bc6h_slow_settings(),
        Bc6hQuality::VerySlow => bc6h_very_slow_settings(),
    }
}

/// The BC7 encoder preset for a quality, among the presets for images with alpha when
/// `alpha` holds and among the opaque presets otherwise.
pub fn get_bc7_settings(quality: Bc7Quality, alpha: bool) -> (settings: Bc7Settings)
    ensures
        bc7_preset(settings, quality, alpha),
{
    if alpha {
        match quality {
            Bc7Quality::UltraFast => bc7_alpha_ultra_fast_settings(),
            Bc7Quality::VeryFast => bc7_alpha_very_fast_settings(),
            Bc7Quality::Fast => bc7_alpha_fast_settings(),
            Bc7Quality::Basic => bc7_alpha_basic_settings(),
            Bc7Quality::Slow => bc7_alpha_slow_settings(),
        }
    } else {
        match quality {
            Bc7Quality::UltraFast => bc7_opaque_ultra_fast_settings(),
            Bc7Quality::VeryFast => bc7_opaque_very_fast_settings(),
            Bc7Quality::Fast => bc7_opaque_fast_settings(),
            Bc7Quality::Basic => bc7_opaque_basic_settings(),
            Bc7Quality::Slow => bc7_opaque_slow_settings(),
        }
    }
}

/// Whether a `width` x `height` surface can be handed to the block encoders: its pixel count
/// plus fifteen fits in 32 bits, and its row stride (four bytes per pixel) and height fit in
/// a signed 32-bit integer.
pub open spec fn encodable_extent(extent: (u32, u32)) -> bool {
    &&& extent.0 as int * extent.1 as int + 15 <= u32::MAX
    &&& 4 * extent.0 as int <= i32::MAX
    &&& extent.1 as int <= i32::MAX
}

/// Whether a `width` x `height` surface can be handed to the block encoders (see
/// `encodable_extent`).
pub fn is_encodable_extent(width: u32, height: u32) -> (encodable: bool)
    ensures
        encodable == encodable_extent((width, height)),
{
    let w = width as u64;
    let h = height as u64;
    assert(w * h <= 0xFFFF_FFFF * 0xFFFF_FFFF) by (nonlinear_arith)
        requires
            w <= 0xFFFF_FFFF,
            h <= 0xFFFF_FFFF,
    ;
    w * h + 15 <= 0xFFFF_FFFF && 4 * w <= 0x7FFF_FFFF && h <= 0x7FFF_FFFF
}

/// Bytes that a block encoder writes for a `width` x `height` surface: one block per sixteen
/// pixels, rounded up, of `block_bytes` each.
pub open spec fn encoded_size(extent: (u32, u32), block_bytes: nat) -> nat {
    (((extent.0 as nat * extent.1 as nat + 15) / 16) * block_bytes) as nat
}

/// Bytes that `intel_tex::bc1::calc_output_size` gives; the contract claims the crate's
/// formula: eight bytes per block of sixteen pixels, rounded up.
#[verifier::external_body]
fn bc1_output_size(width: u32, height: u32) -> (size: usize)
    requires
        encodable_extent((width, height)),
    ensures
        size == encoded_size((width, height), 8),
{
    intel_tex::bc1::calc_output_size(width, height)
}

/// Bytes that `intel_tex::bc3::calc_output_size` gives; the contract claims the crate's
/// formula: sixteen bytes per block of sixteen pixels, rounded up.
#[verifier::external_body]
fn bc3_output_size(width: u32, height: u32) -> (size: usize)
    requires
        encodable_extent((width, height)),
    ensures
        size == encoded_size((width, height), 16),
{
    intel_tex::bc3::calc_output_size(width, height)
}

/// Bytes that `intel_tex::bc6h::calc_output_size` gives; the contract claims the crate's
/// formula: sixteen bytes per block of sixteen pixels, rounded up.
#[verifier::external_body]
fn bc6h_output_size(width: u32, height: u32) -> (size: usize)
    requires
        encodable_extent((width, height)),
    ensures
        size == encoded_size((width, height), 16),
{
    intel_tex::bc6h::calc_output_size(width, height)
}

/// Bytes that `intel_tex::bc7::calc_output_size` gives; the contract claims the crate's
/// formula: sixteen bytes per block of sixteen pixels, rounded up.
#[verifier::external_body]
fn bc7_output_size(width: u32, height: u32) -> (size: usize)
    requires
        encodable_extent((width, height)),
    ensures
        size == encoded_size((width, height), 16),
{
    intel_tex::bc7::calc_output_size(width, height)
}

/// Whether `blocks` are an encoding of the RGBA pixels of a `width` x `height` surface that
/// `intel_tex`'s BC1 encoder can give. The encoder is a precompiled kernel chosen by the CPU's
/// features, so the blocks are not said to be the same on every machine.
pub uninterp spec fn bc1_encodes(pixels: Seq<u8>, width: u32, height: u32, blocks: Seq<u8>) -> bool;

/// Whether `blocks` are an encoding of the RGBA pixels of a `width` x `height` surface that
/// `intel_tex`'s BC3 encoder can give (see `bc1_encodes`).
pub uninterp spec fn bc3_encodes(pixels: Seq<u8>, width: u32, height: u32, blocks: Seq<u8>) -> bool;

/// Whether `blocks` are an encoding of the RGBA pixels of a `width` x `height` surface that
/// `intel_tex`'s BC6H encoder can give with `settings` (see `bc1_encodes`).
pub uninterp spec fn bc6h_encodes(
    settings: Bc6hSettings,
    pixels: Seq<u8>,
    width: u32,
    height: u32,
    blocks: Seq<u8>,
) -> bool;

/// Whether `blocks` are an encoding of the RGBA pixels of a `width` x `height` surface that
/// `intel_tex`'s BC7 encoder can give with `settings` (see `bc1_encodes`).
pub uninterp spec fn bc7_encodes(
    settings: Bc7Settings,
    pixels: Seq<u8>,
    width: u32,
    height: u32,
    blocks: Seq<u8>,
) -> bool;

/// BC1 blocks of an RGBA surface (four bytes per pixel, rows of `stride` bytes), through
/// `intel_tex::bc1::compress_blocks`. The contract claims the size of the output and that it
/// is an encoding of the pixels.
#[verifier::external_body]
fn bc1_compress(pixels: &[u8], width: u32, height: u32, stride: u32) -> (blocks: Vec<u8>)
    requires
        encodable_extent((width, height)),
        pixels@.len() == 4 * width * height,
        stride == 4 * width,
    ensures
        bc1_encodes(pixels@, width, height, blocks@),
        blocks@.len() == encoded_size((width, height), 8),
{
    let surface = intel_tex::RgbaSurface { data: pixels, width, height, stride };
    intel_tex::bc1::compress_blocks(&surface)
}

/// BC3 blocks of an RGBA surface (four bytes per pixel, rows of `stride` bytes), through
/// `intel_tex::bc3::compress_blocks`. The contract claims the size of the output and that it
/// is an encoding of the pixels.
#[verifier::external_body]
fn bc3_compress(pixels: &[u8], width: u32, height: u32, stride: u32) -> (blocks: Vec<u8>)
    requires
        encodable_extent((width, height)),
        pixels@.len() == 4 * width * height,
        stride == 4 * width,
    ensures
        bc3_encodes(pixels@, width, height, blocks@),
        blocks@.len() == encoded_size((width, height), 16),
{
    let surface = intel_tex::RgbaSurface { data: pixels, width, height, stride };
    intel_tex::bc3::compress_blocks(&surface)
}

/// BC6H blocks of an RGBA surface (four bytes per pixel, rows of `stride` bytes), through
/// `intel_tex::bc6h::compress_blocks` with the given settings. The contract claims the size of
/// the output and that it is an encoding of the pixels with those settings.
#[verifier::external_body]
fn bc6h_compress(settings: &Bc6hSettings, pixels: &[u8], width: u32, height: u32, stride: u32) -> (blocks: Vec<u8>)
    requires
        encodable_extent((width, height)),
        pixels@.len() == 4 * width * height,
        stride == 4 * width,
    ensures
        bc6h_encodes(*settings, pixels@, width, height, blocks@),
        blocks@.len() == encoded_size((width, height), 16),
{
    let settings = intel_tex::bc6h::EncodeSettings {
        slow_mode: settings.slow_mode,
        fast_mode: settings.fast_mode,
        refine_iterations_1p: settings.refine_iterations_1p,
        refine_iterations_2p: settings.refine_iterations_2p,
        fast_skip_threshold: settings.fast_skip_threshold,
    };
    let surface = intel_tex::RgbaSurface { data: pixels, width, height, stride };
    intel_tex::bc6h::compress_blocks(&settings, &surface)
}

/// BC7 blocks of an RGBA surface (four bytes per pixel, rows of `stride` bytes), through
/// `intel_tex::bc7::compress_blocks` with the given settings. The contract claims the size of
/// the output and that it is an encoding of the pixels with those settings.
#[verifier::external_body]
fn bc7_compress(settings: &Bc7Settings, pixels: &[u8], width: u32, height: u32, stride: u32) -> (blocks: Vec<u8>)
    requires
        encodable_extent((width, height)),
        pixels@.len() == 4 * width * height,
        stride == 4 * width,
    ensures
        bc7_encodes(*settings, pixels@, width, height, blocks@),
        blocks@.len() == encoded_size((width, height), 16),
{
    let settings = intel_tex::bc7::EncodeSettings {
        mode_selection: settings.mode_selection,
        refine_iterations: settings.refine_iterations,
        skip_mode2: settings.skip_mode2,
        fast_skip_threshold_mode1: settings.fast_skip_threshold_mode1,
        fast_skip_threshold_mode3: settings.fast_skip_threshold_mode3,
        fast_skip_threshold_mode7: settings.fast_skip_threshold_mode7,
        mode45_channel0: settings.mode45_channel0,
        refine_iterations_channel: settings.refine_iterations_channel,
        channels: settings.channels,
    };
    let surface = intel_tex::RgbaSurface { data: pixels, width, height, stride };
    intel_tex::bc7::compress_blocks(&settings, &surface)
}

/// A DirectDraw Surface of the `ddsfile` crate, held opaquely.
#[verifier::external_type_specification]
#[verifier::external_body]
pub struct ExDds(ddsfile::Dds);

/// The pixel data of a DDS surface: every layer, every level, as stored after the headers.
pub uninterp spec fn dds_data(dds: ddsfile::Dds) -> Seq<u8>;

/// The bytes that `Dds::write` puts before the pixel data: the magic number, the header and
/// the extended header when there is one.
pub uninterp spec fn dds_header_bytes(dds: ddsfile::Dds) -> Seq<u8>;

/// The block-compressed DXGI formats that the encoders produce.
#[derive(Clone, Copy, Debug, PartialEq, Eq, Structural)]
pub enum DdsBlockFormat {
    Bc1Unorm,
    Bc3Unorm,
    Bc6hSf16,
    Bc7Unorm,
}

/// The DXGI format code that surfaces of an encoder's format declare.
pub open spec fn dxgi_code(format: DdsBlockFormat) -> u32 {
    match format {
        DdsBlockFormat::Bc1Unorm => 71,
        DdsBlockFormat::Bc3Unorm => 77,
        DdsBlockFormat::Bc6hSf16 => 96,
        DdsBlockFormat::Bc7Unorm => 98,
    }
}

/// The texture format of an encoder's output.
pub open spec fn block_texture_format(format: DdsBlockFormat) -> TextureFormat {
    match format {
        DdsBlockFormat::Bc1Unorm => TextureFormat::BC1_UNORM,
        DdsBlockFormat::Bc3Unorm => TextureFormat::BC3_UNORM,
        DdsBlockFormat::Bc6hSf16 => TextureFormat::BC6S_FLOAT,
        DdsBlockFormat::Bc7Unorm => TextureFormat::BC7_UNORM,
    }
}

/// The four bytes of `value`, least significant first.
pub open spec fn le_u32_bytes(value: u32) -> Seq<u8> {
    seq![
        (value % 256) as u8,
        (value / 256 % 256) as u8,
        (value / 65536 % 256) as u8,
        (value / 16777216) as u8,
    ]
}

/// Whether `bytes` start with the headers of a single-layer 2D DDS surface of `width` x
/// `height` texels in an encoder's format, as `Dds::write` lays them out: the magic number
/// `DDS `; the header's size (124), flags (`Header::new_dxgi` sets, for a block-compressed
/// format, those of the capabilities, height, width, pixel format and linear size:
/// `0x8_1007`), height and width, its pixel format's size (32), flags
/// (only the four-character code) and code (`DX10`), and empty `caps2`; then the extended
/// header's DXGI format code, a 2D resource dimension (3), one array layer and the alpha mode
/// (straight when `alpha` holds, else opaque). 148 bytes in all.
pub open spec fn declared_surface(
    bytes: Seq<u8>,
    height: u32,
    width: u32,
    format: DdsBlockFormat,
    alpha: bool,
) -> bool {
    &&& bytes.len() >= 148
    &&& bytes.subrange(0, 4) == seq![68u8, 68u8, 83u8, 32u8]
    &&& bytes.subrange(4, 8) == le_u32_bytes(124)
    &&& bytes.subrange(8, 12) == le_u32_bytes(0x0008_1007)
    &&& bytes.subrange(12, 16) == le_u32_bytes(height)
    &&& bytes.subrange(16, 20) == le_u32_bytes(width)
    &&& bytes.subrange(76, 80) == le_u32_bytes(32)
    &&& bytes.subrange(80, 84) == le_u32_bytes(4)
    &&& bytes.subrange(84, 88) == le_u32_bytes(0x30315844)
    &&& bytes.subrange(112, 116) == le_u32_bytes(0)
    &&& bytes.subrange(128, 132) == le_u32_bytes(dxgi_code(format))
    &&& bytes.subrange(132, 136) == le_u32_bytes(3)
    &&& bytes.subrange(140, 144) == le_u32_bytes(1)
    &&& bytes.subrange(144, 148) == le_u32_bytes(if alpha { 1 } else { 3 })
}

/// What `Dds::write` puts before the data of a new single-layer 2D surface: the 148 bytes of
/// headers that `declared_surface` describes, with the level count at its place in the header.
pub open spec fn new_surface_header(
    header: Seq<u8>,
    height: u32,
    width: u32,
    levels: u32,
    format: DdsBlockFormat,
    alpha: bool,
) -> bool {
    &&& header.len() == 148
    &&& declared_surface(header, height, width, format, alpha)
    &&& header.subrange(28, 32) == le_u32_bytes(levels)
}

/// Bytes that start with declared headers still start with them when more bytes follow.
proof fn lemma_declared_surface_prefix(
    header: Seq<u8>,
    rest: Seq<u8>,
    height: u32,
    width: u32,
    format: DdsBlockFormat,
    alpha: bool,
)
    requires
        header.len() == 148,
        declared_surface(header, height, width, format, alpha),
    ensures
        declared_surface(header + rest, height, width, format, alpha),
{
    let bytes = header + rest;
    assert forall|a: int, b: int| 0 <= a <= b <= 148 implies #[trigger] bytes.subrange(a, b) == header.subrange(a, b) by {
        assert(bytes.subrange(a, b) =~= header.subrange(a, b));
    }
}

/// Law: the DDS file of a compressed chain starts with the headers of a single-layer 2D
/// surface of the top level's size in the encoder's format (see `declared_surface`), so that
/// `read_dds_result` reads it back as that format, size, one layer, a depth of one and one
/// level, with the layer as its data; the header holds the chain's level count at its place,
/// but its flags do not mark it.
pub proof fn lemma_chain_file_declares_surface(
    encoder: BlockEncoder,
    alpha: bool,
    images: Seq<image::DynamicImage>,
    out: Seq<u8>,
)
    requires
        dds_chain_bytes(encoder, alpha, images, out),
    ensures
        declared_surface(out, image_extent(images[0]).1, image_extent(images[0]).0, encoder_format(encoder), alpha),
        out.subrange(28, 32) == le_u32_bytes(images.len() as u32),
{
    let (header, levels, padding) = choose|header: Seq<u8>, levels: Seq<Seq<u8>>, padding: nat|
        #![trigger header + concat_levels(levels) + zeros(padding)]
        {
            &&& new_surface_header(
                header,
                image_extent(images[0]).1,
                image_extent(images[0]).0,
                images.len() as u32,
                encoder_format(encoder),
                alpha,
            )
            &&& levels.len() == images.len()
            &&& forall|i: int| 0 <= i < images.len() ==> level_encoding(encoder, #[trigger] images[i], levels[i])
            &&& padding + chain_encoded_size(encoder_format(encoder), images) == chain_layer_size(
                encoder_format(encoder),
                images,
            )
            &&& out == header + concat_levels(levels) + zeros(padding)
        };
    assert(out =~= header + (concat_levels(levels) + zeros(padding)));
    assert(out.subrange(28, 32) =~= header.subrange(28, 32));
    lemma_declared_surface_prefix(
        header,
        concat_levels(levels) + zeros(padding),
        image_extent(images[0]).1,
        image_extent(images[0]).0,
        encoder_format(encoder),
        alpha,
    );
}

/// Law: the DXGI code that an encoder's surfaces declare is read back, from any surface that
/// declares it, as the encoder's texture format, and that format is block-compressed.
pub proof fn lemma_encoded_format_reads_back(format: DdsBlockFormat, info: DdsInfo)
    requires
        info.dxgi_format == Some(dxgi_code(format)),
    ensures
        format_from_dxgi(dxgi_code(format)) == Some(block_texture_format(format)),
        dds_texture_format(info) == Some(block_texture_format(format)),
        is_bcn(block_texture_format(format)),
{
}

/// Law: each handled DXGI code is read as the texture format of the same name: Unknown (0),
/// R32G32B32A32_Float (2), the R8G8B8A8 family (28 to 32), and BC1 to BC7 with their sRGB
/// and signed variants (71 to 99).
pub proof fn lemma_dxgi_codes_name_their_formats()
    ensures
        format_from_dxgi(0) == Some(TextureFormat::UNKNOWN),
        format_from_dxgi(2) == Some(TextureFormat::R32G32B32A32_FLOAT),
        format_from_dxgi(28) == Some(TextureFormat::R8G8B8A8_UNORM),
        format_from_dxgi(29) == Some(TextureFormat::R8G8B8A8_SRGB),
        format_from_dxgi(30) == Some(TextureFormat::R8G8B8A8_UINT),
        format_from_dxgi(31) == Some(TextureFormat::R8G8B8A8_SNORM),
        format_from_dxgi(32) == Some(TextureFormat::R8G8B8A8_SINT),
        format_from_dxgi(71) == Some(TextureFormat::BC1_UNORM),
        format_from_dxgi(72) == Some(TextureFormat::BC1_SRGB),
        format_from_dxgi(74) == Some(TextureFormat::BC2_UNORM),
        format_from_dxgi(75) == Some(TextureFormat::BC2_SRGB),
        format_from_dxgi(77) == Some(TextureFormat::BC3_UNORM),
        format_from_dxgi(78) == Some(TextureFormat::BC3_SRGB),
        format_from_dxgi(80) == Some(TextureFormat::BC4_UNORM),
        format_from_dxgi(81) == Some(TextureFormat::BC4_SNORM),
        format_from_dxgi(83) == Some(TextureFormat::BC5_UNORM),
        format_from_dxgi(84) == Some(TextureFormat::BC5_SNORM),
        format_from_dxgi(95) == Some(TextureFormat::BC6U_FLOAT),
        format_from_dxgi(96) == Some(TextureFormat::BC6S_FLOAT),
        format_from_dxgi(98) == Some(TextureFormat::BC7_UNORM),
        format_from_dxgi(99) == Some(TextureFormat::BC7_SRGB),
{
}

/// Law: the two handled legacy formats are read as the formats of the same channels: the
/// 32-bit float two-channel format as R32G32_FLOAT and the four-channel one as
/// R32G32B32A32_FLOAT; no other legacy format is handled.
pub proof fn lemma_legacy_formats_name_their_formats(format: D3dFormat)
    ensures
        format_from_d3d(D3dFormat::G32R32F) == Some(TextureFormat::R32G32_FLOAT),
        format_from_d3d(D3dFormat::A32B32G32R32F) == Some(TextureFormat::R32G32B32A32_FLOAT),
        format != D3dFormat::G32R32F && format != D3dFormat::A32B32G32R32F ==> format_from_d3d(format)
            is None,
{
}

/// Law: a surface's DXGI code, when it has one, decides its texture format, whatever legacy
/// format it also declares; a surface with neither is of unknown format.
pub proof fn lemma_dxgi_code_decides_format(info: DdsInfo)
    ensures
        info.dxgi_format matches Some(code) ==> dds_texture_format(info) == format_from_dxgi(code),
        info.dxgi_format is None && info.d3d_format is None ==> dds_texture_format(info) == Some(
            TextureFormat::UNKNOWN,
        ),
        info.dxgi_format is None ==> (info.d3d_format matches Some(d3d) ==> dds_texture_format(info)
            == format_from_d3d(d3d)),
{
}

/// Law: the BC7 presets for images with alpha encode four channels, the opaque presets three.
pub proof fn lemma_bc7_preset_channels(settings: Bc7Settings, quality: Bc7Quality, alpha: bool)
    requires
        bc7_preset(settings, quality, alpha),
    ensures
        settings.channels == (if alpha { 4i32 } else { 3i32 }),
{
}

/// Law: distinct handled DXGI codes are read as distinct texture formats.
pub proof fn lemma_dxgi_formats_one_to_one(a: u32, b: u32)
    requires
        format_from_dxgi(a) is Some,
        format_from_dxgi(a) == format_from_dxgi(b),
    ensures
        a == b,
{
}

/// Law: a described DDS surface keeps its sizes: the description's width, height and depth
/// are the surface's, its level count is the surface's mip level count and its element count
/// the surface's array layer count, whatever the shape.
pub proof fn lemma_description_keeps_sizes(info: DdsInfo)
    ensures
        dds_description(info).width == info.width,
        dds_description(info).height == info.height,
        dds_description(info).depth == info.depth,
        dds_description(info).levels == info.mip_levels,
        dds_description(info).elements == info.array_layers,
        dds_describable(info) ==> Some(dds_description(info).format) == dds_texture_format(info),
{
}

/// Law: the shape of a described surface follows its flags and sizes: a volume is a 3D
/// texture and only a volume is; a cube map that is not a volume is a cube; otherwise a
/// surface more than one texel high is a 2D array exactly when it has more than one layer,
/// else a 2D texture, and a surface one texel high or less is a 1D array.
pub proof fn lemma_description_shape(info: DdsInfo)
    ensures
        (dds_description(info).type_ == TextureType::Tex3d) == info.is_volume,
        !info.is_volume && info.is_cubemap ==> dds_description(info).type_ == TextureType::Cube,
        !info.is_volume && !info.is_cubemap && info.height > 1 ==> (dds_description(info).type_
            == TextureType::Tex2dArray) == (info.array_layers > 1),
        !info.is_volume && !info.is_cubemap && info.height > 1 && info.array_layers <= 1
            ==> dds_description(info).type_ == TextureType::Tex2d,
        !info.is_volume && !info.is_cubemap && info.height <= 1 ==> dds_description(info).type_
            == TextureType::Tex1dArray,
{
}

/// Law: the texture format of an encoder's output has 4x4 blocks of exactly the bits that
/// the encoder writes per block (8 bytes for BC1, 16 for the others).
pub proof fn lemma_encoded_format_block_size(format: DdsBlockFormat)
    ensures
        texture_format_info(block_texture_format(format)) matches Some(info) && info.block_width == 4
            && info.block_height == 4 && info.block_bits == 8 * block_bytes_of(format),
{
}

/// Bytes per row of blocks of a surface `width` texels wide, as `ddsfile` computes it: one
/// block per four texels, rounded up, and at least one block.
pub open spec fn surface_pitch(width: u32, block_bytes: nat) -> nat {
    let blocks = (width as nat + 3) / 4;
    (if blocks >= 1 { blocks } else { 1 }) * block_bytes
}

/// Whether `ddsfile` lays out a new single-layer 2D surface of `width` x `height` texels with
/// `levels` levels of `block_bytes`-byte blocks within 32-bit arithmetic: the sides rounded up
/// to blocks, the pitch, the header's linear size (pitch times height), and the layer's size
/// (at most twice the top level's blocks, plus one smallest level per level) fit in 32 bits.
pub open spec fn surface_fits(width: u32, height: u32, levels: u32, block_bytes: nat) -> bool {
    &&& width as int + 3 <= u32::MAX
    &&& height as int + 3 <= u32::MAX
    &&& surface_pitch(width, block_bytes) <= u32::MAX
    &&& surface_pitch(width, block_bytes) * height <= u32::MAX
    &&& 2 * surface_pitch(width, block_bytes) * ((height as nat + 3) / 4) + levels * block_bytes <= u32::MAX
}

/// Whether `ddsfile` lays out a new single-layer 2D surface in 32-bit arithmetic (see
/// `surface_fits`).
pub fn is_surface_fitting(width: u32, height: u32, levels: u32, format: DdsBlockFormat) -> (fits: bool)
    ensures
        fits == surface_fits(width, height, levels, block_bytes_of(format)),
{
    let block_bytes: u128 = match format {
        DdsBlockFormat::Bc1Unorm => 8,
        _ => 16,
    };
    if width > 0xFFFF_FFFC || height > 0xFFFF_FFFC {
        return false;
    }
    let blocks_across: u128 = (width as u128 + 3) / 4;
    let pitch: u128 = (if blocks_across >= 1 { blocks_across } else { 1 }) * block_bytes;
    let rows: u128 = (height as u128 + 3) / 4;
    let tall: u128 = height as u128;
    assert(pitch * tall <= 0x4_0000_0000 * 0x1_0000_0000) by (nonlinear_arith)
        requires
            pitch <= 0x4_0000_0000,
            tall <= 0xFFFF_FFFF,
    ;
    assert(2 * pitch * rows <= 2 * 0x4_0000_0000 * 0x4000_0000) by (nonlinear_arith)
        requires
            pitch <= 0x4_0000_0000,
            rows <= 0x4000_0000,
    ;
    pitch <= 0xFFFF_FFFF && pitch * tall <= 0xFFFF_FFFF && 2 * pitch * rows + (levels as u128)
        * block_bytes <= 0xFFFF_FFFF
}

/// A new 2D DDS surface with an extended header, through `Dds::new_dxgi`, with the depth, the
/// number of array layers, the `caps2` bits and the cube map flag that the caller gives (the
/// domain holds them to one layer of depth one, no `caps2` bits, not a cube map) and the 2D
/// resource dimension; alpha is straight when `alpha` holds, else the surface is opaque. The
/// domain leaves out the surfaces whose layout overflows the crate's 32-bit arithmetic (see
/// `surface_fits`). The contract claims that a surface is made (for these block-compressed
/// formats the crate's source fails only where a format has no pitch or block size), that its
/// data is all zeros and as long as the crate's source computes it (`get_texture_size` for
/// the top level, `get_array_stride` for the levels, with the format's pitch and block size),
/// and what its headers hold at the places that `Header::write` and `Header10::write` give
/// them; the other header fields are left unsaid.
#[verifier::external_body]
fn new_dds_2d(
    height: u32,
    width: u32,
    depth: u32,
    format: DdsBlockFormat,
    mipmap_levels: u32,
    array_layers: u32,
    caps2_bits: u32,
    is_cubemap: bool,
    alpha: bool,
) -> (dds: ddsfile::Dds)
    requires
        surface_fits(width, height, mipmap_levels, block_bytes_of(format)),
        depth == 1,
        array_layers == 1,
        caps2_bits == 0,
        !is_cubemap,
    ensures
        forall|i: int| 0 <= i < dds_data(dds).len() ==> dds_data(dds)[i] == 0,
        dds_data(dds).len() == layer_size(
            surface_top_size(width, height, block_bytes_of(format)),
            block_bytes_of(format),
            mipmap_levels as nat,
        ),
        new_surface_header(dds_header_bytes(dds), height, width, mipmap_levels, format, alpha),
{
    let format = match format {
        DdsBlockFormat::Bc1Unorm => ddsfile::DxgiFormat::BC1_UNorm,
        DdsBlockFormat::Bc3Unorm => ddsfile::DxgiFormat::BC3_UNorm,
        DdsBlockFormat::Bc6hSf16 => ddsfile::DxgiFormat::BC6H_SF16,
        DdsBlockFormat::Bc7Unorm => ddsfile::DxgiFormat::BC7_UNorm,
    };
    let alpha_mode = if alpha { ddsfile::AlphaMode::Straight } else { ddsfile::AlphaMode::Opaque };
    let caps2 = Some(ddsfile::Caps2::from_bits_truncate(caps2_bits));
    let dimension = ddsfile::D3D10ResourceDimension::Texture2D;
    let (depth, levels, layers) = (Some(depth), Some(mipmap_levels), Some(array_layers));
    ddsfile::Dds::new_dxgi(height, width, depth, format, levels, layers, caps2, is_cubemap, dimension, alpha_mode)
        .expect("block-compressed formats have a pitch and a block size")
}

/// Moves the pixel data out of a surface (its public `data` field), leaving it empty. The
/// contract claims that the headers are untouched.
#[verifier::external_body]
fn dds_take_data(dds: &mut ddsfile::Dds) -> (data: Vec<u8>)
    ensures
        data@ == dds_data(*old(dds)),
        dds_data(*final(dds)) == Seq::<u8>::empty(),
        dds_header_bytes(*final(dds)) == dds_header_bytes(*old(dds)),
{
    std::mem::take(&mut dds.data)
}

/// Puts pixel data into a surface (its public `data` field). The contract claims that the
/// headers are untouched.
#[verifier::external_body]
fn dds_put_data(dds: &mut ddsfile::Dds, data: Vec<u8>)
    ensures
        dds_data(*final(dds)) == data@,
        dds_header_bytes(*final(dds)) == dds_header_bytes(*old(dds)),
{
    dds.data = data;
}

/// The bytes of a DDS file for `dds`, written by `Dds::write` to memory: the headers, then
/// the pixel data. Writing to memory does not fail.
#[verifier::external_body]
pub fn serialize_dds_bytes(dds: &ddsfile::Dds) -> (bytes: Vec<u8>)
    ensures
        bytes@ == dds_header_bytes(*dds) + dds_data(*dds),
{
    let mut dds_memory = std::io::Cursor::new(Vec::<u8>::new());
    dds.write(&mut dds_memory).expect("Failed to write dds memory");
    dds_memory.into_inner()
}

/// The levels' blocks, one after the other.
pub open spec fn concat_levels(levels: Seq<Seq<u8>>) -> Seq<u8>
    decreases levels.len(),
{
    if levels.len() == 0 {
        Seq::empty()
    } else {
        concat_levels(levels.drop_last()) + levels.last()
    }
}

/// `count` zero bytes.
pub open spec fn zeros(count: nat) -> Seq<u8> {
    Seq::new(count, |i: int| 0u8)
}

/// Whether `ddsfile` lays out, in 32-bit arithmetic, the surface for a chain: the top level's
/// size, one level per image (see `surface_fits`).
pub open spec fn chain_surface_fits(format: DdsBlockFormat, images: Seq<image::DynamicImage>) -> bool {
    surface_fits(image_extent(images[0]).0, image_extent(images[0]).1, images.len() as u32, block_bytes_of(format))
}

/// Bytes of the top level of a new surface as `ddsfile` lays it out: the pitch times the rows
/// of blocks (a row of blocks is four texels high, rounded up).
pub open spec fn surface_top_size(width: u32, height: u32, block_bytes: nat) -> nat {
    surface_pitch(width, block_bytes) * ((height as nat + 3) / 4)
}

/// Bytes of a layer of `levels` levels as `ddsfile` lays it out, the first level being `size`
/// bytes: each next level is a quarter of the previous one, rounded down, but no smaller than
/// one block.
pub open spec fn layer_size(size: nat, block_bytes: nat, levels: nat) -> nat
    decreases levels,
{
    if levels == 0 {
        0
    } else {
        size + layer_size(
            if size / 4 < block_bytes {
                block_bytes
            } else {
                size / 4
            },
            block_bytes,
            (levels - 1) as nat,
        )
    }
}

/// Bytes of the layer that `ddsfile` allocates for the surface of a chain.
pub open spec fn chain_layer_size(format: DdsBlockFormat, images: Seq<image::DynamicImage>) -> nat {
    layer_size(
        surface_top_size(image_extent(images[0]).0, image_extent(images[0]).1, block_bytes_of(format)),
        block_bytes_of(format),
        images.len(),
    )
}

/// Bytes that the block encoders write for all the levels of a chain.
pub open spec fn chain_encoded_size(format: DdsBlockFormat, images: Seq<image::DynamicImage>) -> nat
    decreases images.len(),
{
    if images.len() == 0 {
        0
    } else {
        chain_encoded_size(format, images.drop_last()) + encoded_size(
            image_extent(images.last()),
            block_bytes_of(format),
        )
    }
}

/// Whether a chain can be written into the surface that `ddsfile` makes for it: the surface's
/// layout fits in 32 bits and the levels' blocks fit in its layer.
pub open spec fn chain_fits_layer(format: DdsBlockFormat, images: Seq<image::DynamicImage>) -> bool {
    &&& chain_surface_fits(format, images)
    &&& chain_encoded_size(format, images) <= chain_layer_size(format, images)
}

/// The blocks of the first levels of a chain are no more than those of the whole chain.
proof fn lemma_chain_encoded_prefix(format: DdsBlockFormat, images: Seq<image::DynamicImage>, count: int)
    requires
        0 <= count <= images.len(),
    ensures
        chain_encoded_size(format, images.take(count)) <= chain_encoded_size(format, images),
    decreases images.len(),
{
    if count < images.len() {
        assert(images.drop_last().take(count) =~= images.take(count));
        lemma_chain_encoded_prefix(format, images.drop_last(), count);
    } else {
        assert(images.take(count) =~= images);
    }
}

/// Chains whose levels have the same sizes need the same number of bytes of blocks.
pub(crate) proof fn lemma_chain_encoded_size_by_extents(
    format: DdsBlockFormat,
    a: Seq<image::DynamicImage>,
    b: Seq<image::DynamicImage>,
)
    requires
        a.len() == b.len(),
        forall|i: int| 0 <= i < a.len() ==> image_extent(#[trigger] a[i]) == image_extent(b[i]),
    ensures
        chain_encoded_size(format, a) == chain_encoded_size(format, b),
    decreases a.len(),
{
    if a.len() > 0 {
        assert forall|i: int| 0 <= i < a.drop_last().len() implies image_extent(#[trigger] a.drop_last()[i])
            == image_extent(b.drop_last()[i]) by {
            assert(a.drop_last()[i] == a[i]);
            assert(b.drop_last()[i] == b[i]);
        }
        lemma_chain_encoded_size_by_extents(format, a.drop_last(), b.drop_last());
        assert(image_extent(a[a.len() - 1]) == image_extent(b[b.len() - 1]));
    }
}

/// Whether every level of a chain can be handed to the block encoders.
pub open spec fn chain_encodable(images: Seq<image::DynamicImage>) -> bool {
    &&& images.len() <= u32::MAX
    &&& forall|i: int| 0 <= i < images.len() ==> encodable_extent(#[trigger] image_extent(images[i]))
}

/// Whether every level of a chain can be handed to the block encoders (see
/// `chain_encodable`).
pub fn is_chain_encodable(images: &Vec<image::DynamicImage>) -> (encodable: bool)
    ensures
        encodable == chain_encodable(images@),
{
    if images.len() as u64 > 0xFFFF_FFFF {
        return false;
    }
    let mut i: usize = 0;
    while i < images.len()
        invariant
            i <= images@.len(),
            images@.len() <= u32::MAX,
            forall|j: int| 0 <= j < i ==> encodable_extent(#[trigger] image_extent(images@[j])),
        decreases images.len() - i,
    {
        let (width, height) = image_dimensions(&images[i]);
        if !is_encodable_extent(width, height) {
            return false;
        }
        i = i + 1;
    }
    true
}

/// The block encoder of a chain, with its settings.
pub enum BlockEncoder {
    Bc1,
    Bc3,
    Bc6h(Bc6hSettings),
    Bc7(Bc7Settings),
}

/// Bytes per block of an encoder.
pub open spec fn block_bytes_of(format: DdsBlockFormat) -> nat {
    match format {
        DdsBlockFormat::Bc1Unorm => 8,
        _ => 16,
    }
}

/// The DDS format of an encoder's output.
pub open spec fn encoder_format(encoder: BlockEncoder) -> DdsBlockFormat {
    match encoder {
        BlockEncoder::Bc1 => DdsBlockFormat::Bc1Unorm,
        BlockEncoder::Bc3 => DdsBlockFormat::Bc3Unorm,
        BlockEncoder::Bc6h(_) => DdsBlockFormat::Bc6hSf16,
        BlockEncoder::Bc7(_) => DdsBlockFormat::Bc7Unorm,
    }
}

/// What the encoding of one level of `img` holds in `blocks`: the encoder's size for the
/// level, and an encoding of the level's RGBA pixels by the encoder with its settings.
pub open spec fn level_encoding(encoder: BlockEncoder, img: image::DynamicImage, blocks: Seq<u8>) -> bool {
    let (w, h) = image_extent(img);
    let pixels = rgba8_pixels(img);
    &&& blocks.len() == encoded_size((w, h), block_bytes_of(encoder_format(encoder)))
    &&& match encoder {
        BlockEncoder::Bc1 => bc1_encodes(pixels, w, h, blocks),
        BlockEncoder::Bc3 => bc3_encodes(pixels, w, h, blocks),
        BlockEncoder::Bc6h(settings) => bc6h_encodes(settings, pixels, w, h, blocks),
        BlockEncoder::Bc7(settings) => bc7_encodes(settings, pixels, w, h, blocks),
    }
}

/// What a compressed chain holds: a DDS file for a surface of the top level's size with one
/// level per image, whose data is each level's blocks by `encoder`, one after the other, then
/// zeros to the end of the layer that `ddsfile` lays out for the surface.
pub open spec fn dds_chain_bytes(
    encoder: BlockEncoder,
    alpha: bool,
    images: Seq<image::DynamicImage>,
    out: Seq<u8>,
) -> bool {
    exists|header: Seq<u8>, levels: Seq<Seq<u8>>, padding: nat|
        #![trigger header + concat_levels(levels) + zeros(padding)]
        {
            &&& new_surface_header(
                header,
                image_extent(images[0]).1,
                image_extent(images[0]).0,
                images.len() as u32,
                encoder_format(encoder),
                alpha,
            )
            &&& levels.len() == images.len()
            &&& forall|i: int| 0 <= i < images.len() ==> level_encoding(encoder, #[trigger] images[i], levels[i])
            &&& padding + chain_encoded_size(encoder_format(encoder), images) == chain_layer_size(
                encoder_format(encoder),
                images,
            )
            &&& out == header + concat_levels(levels) + zeros(padding)
        }
}

/// What a chain compressed as BC7 with the `intel_tex` preset for `quality` (among those for
/// images with alpha when `preset_alpha` holds) holds, the surface's alpha being straight
/// when `alpha` holds, else opaque (see `dds_chain_bytes`).
pub open spec fn bc7_chain_bytes(
    quality: Bc7Quality,
    preset_alpha: bool,
    alpha: bool,
    images: Seq<image::DynamicImage>,
    out: Seq<u8>,
) -> bool {
    exists|settings: Bc7Settings|
        #![trigger dds_chain_bytes(BlockEncoder::Bc7(settings), alpha, images, out)]
        bc7_preset(settings, quality, preset_alpha) && dds_chain_bytes(BlockEncoder::Bc7(settings), alpha, images, out)
}

fn encoded_level_size(encoder: &BlockEncoder, width: u32, height: u32) -> (size: usize)
    requires
        encodable_extent((width, height)),
    ensures
        size == encoded_size((width, height), block_bytes_of(encoder_format(*encoder))),
{
    match encoder {
        BlockEncoder::Bc1 => bc1_output_size(width, height),
        BlockEncoder::Bc3 => bc3_output_size(width, height),
        BlockEncoder::Bc6h(_) => bc6h_output_size(width, height),
        BlockEncoder::Bc7(_) => bc7_output_size(width, height),
    }
}

fn encode_level(encoder: &BlockEncoder, img: &image::DynamicImage) -> (blocks: Vec<u8>)
    requires
        encodable_extent(image_extent(*img)),
    ensures
        level_encoding(*encoder, *img, blocks@),
{
    let pixels = image_to_rgba(img);
    let (width, height) = image_dimensions(img);
    let stride = 4 * width;
    match encoder {
        BlockEncoder::Bc1 => bc1_compress(pixels.as_slice(), width, height, stride),
        BlockEncoder::Bc3 => bc3_compress(pixels.as_slice(), width, height, stride),
        BlockEncoder::Bc6h(settings) => bc6h_compress(settings, pixels.as_slice(), width, height, stride),
        BlockEncoder::Bc7(settings) => bc7_compress(settings, pixels.as_slice(), width, height, stride),
    }
}

/// Encodes each level with `encoder` into the single layer of a new 2D DDS surface, level
/// after level from the start of the layer, and writes the surface out. `None` where the
/// surface's layout does not fit in 32 bits or the levels do not fit in its layer.
fn compress_2d(images: &Vec<image::DynamicImage>, encoder: BlockEncoder, alpha: bool) -> (out:
    Option<Vec<u8>>)
    requires
        chain_encodable(images@),
    ensures
        images@.len() == 0 ==> (out matches Some(o) && o@.len() == 0),
        images@.len() > 0 ==> (out matches Some(o) ==> dds_chain_bytes(encoder, alpha, images@, o@)),
        images@.len() > 0 ==> (out is Some <==> chain_fits_layer(encoder_format(encoder), images@)),
{
    if images.len() == 0 {
        return Some(Vec::new());
    }
    let top_level = &images[0];
    let (width, height) = image_dimensions(top_level);
    let mip_count = images.len();
    let format = match &encoder {
        BlockEncoder::Bc1 => DdsBlockFormat::Bc1Unorm,
        BlockEncoder::Bc3 => DdsBlockFormat::Bc3Unorm,
        BlockEncoder::Bc6h(_) => DdsBlockFormat::Bc6hSf16,
        BlockEncoder::Bc7(_) => DdsBlockFormat::Bc7Unorm,
    };
    if !is_surface_fitting(width, height, mip_count as u32, format) {
        return None;
    }
    let mut dds = new_dds_2d(height, width, 1, format, mip_count as u32, 1, 0, false, alpha);
    let ghost header = dds_header_bytes(dds);
    let mut layer_data = dds_take_data(&mut dds);
    let ghost layer_len = layer_data@.len();
    assert(layer_data@ =~= concat_levels(Seq::empty()) + zeros(layer_len as nat));
    assert(images@.take(0) =~= Seq::<image::DynamicImage>::empty());

    let ghost mut levels: Seq<Seq<u8>> = Seq::empty();
    let mut start_offset: usize = 0;
    let mut i: usize = 0;
    while i < mip_count
        invariant
            mip_count == images@.len(),
            chain_encodable(images@),
            i <= mip_count,
            layer_data@.len() == layer_len,
            levels.len() == i,
            start_offset == concat_levels(levels).len(),
            start_offset == chain_encoded_size(encoder_format(encoder), images@.take(i as int)),
            layer_len == chain_layer_size(encoder_format(encoder), images@),
            chain_surface_fits(encoder_format(encoder), images@),
            start_offset <= layer_len,
            layer_data@ == concat_levels(levels) + zeros((layer_len - start_offset) as nat),
            forall|j: int| 0 <= j < i ==> level_encoding(encoder, #[trigger] images@[j], levels[j]),
            dds_header_bytes(dds) == header,
        decreases mip_count - i,
    {
        let (mip_width, mip_height) = image_dimensions(&images[i]);
        proof {
            assert(encodable_extent(image_extent(images@[i as int])));
        }
        let mip_size = encoded_level_size(&encoder, mip_width, mip_height);
        proof {
            assert(images@.take(i + 1).drop_last() =~= images@.take(i as int));
            assert(images@.take(i + 1).last() == images@[i as int]);
        }
        if mip_size > layer_data.len() - start_offset {
            proof {
                lemma_chain_encoded_prefix(encoder_format(encoder), images@, i + 1);
            }
            return None;
        }
        let blocks = encode_level(&encoder, &images[i]);
        let ghost before = layer_data@;
        let mut k: usize = 0;
        while k < blocks.len()
            invariant
                blocks@.len() == mip_size,
                start_offset + mip_size <= layer_data@.len(),
                layer_data@.len() == layer_len,
                k <= blocks@.len(),
                layer_data@ == concat_levels(levels) + blocks@.take(k as int) + zeros(
                    (layer_len - start_offset - k) as nat,
                ),
            decreases blocks.len() - k,
        {
            assert(start_offset + k < layer_data.len());
            layer_data.set(start_offset + k, blocks[k]);
            proof {
                assert(layer_data@ =~= concat_levels(levels) + blocks@.take(k + 1) + zeros(
                    (layer_len - start_offset - k - 1) as nat,
                ));
            }
            k = k + 1;
        }
        proof {
            let next = levels.push(blocks@);
            assert(next.drop_last() =~= levels);
            assert(blocks@.take(blocks@.len() as int) =~= blocks@);
            assert(concat_levels(next) == concat_levels(levels) + blocks@);
            assert forall|j: int| 0 <= j < i + 1 implies level_encoding(encoder, #[trigger] images@[j], next[j]) by {
                if j < i {
                    assert(next[j] == levels[j]);
                }
            }
            levels = next;
        }
        start_offset = start_offset + mip_size;
        i = i + 1;
    }
    assert(images@.take(i as int) =~= images@);
    dds_put_data(&mut dds, layer_data);
    let out = serialize_dds_bytes(&dds);
    proof {
        let padding = (layer_len - start_offset) as nat;
        assert(out@ == header + concat_levels(levels) + zeros(padding));
    }
    Some(out)
}

/// A DDS file holding a mip chain (top level first) as opaque BC1: a 2D surface of the top
/// level's size, one level per image, each image's blocks after the previous ones. Empty for
/// no images; `None` exactly where the surface's layout does not fit in 32 bits or the
/// levels do not fit in the layer that `ddsfile` allocates for it.
pub fn compress_bc1_2d(images: &Vec<image::DynamicImage>) -> (out: Option<Vec<u8>>)
    requires
        chain_encodable(images@),
    ensures
        images@.len() == 0 ==> (out matches Some(o) && o@.len() == 0),
        images@.len() > 0 ==> (out matches Some(o) ==> dds_chain_bytes(BlockEncoder::Bc1, false, images@, o@)),
        images@.len() > 0 ==> (out is Some <==> chain_fits_layer(DdsBlockFormat::Bc1Unorm, images@)),
{
    compress_2d(images, BlockEncoder::Bc1, false)
}

/// A DDS file holding a mip chain (top level first) as BC3, laid out as by `compress_bc1_2d`.
pub fn compress_bc3_2d(images: &Vec<image::DynamicImage>) -> (out: Option<Vec<u8>>)
    requires
        chain_encodable(images@),
    ensures
        images@.len() == 0 ==> (out matches Some(o) && o@.len() == 0),
        images@.len() > 0 ==> (out matches Some(o) ==> dds_chain_bytes(BlockEncoder::Bc3, false, images@, o@)),
        images@.len() > 0 ==> (out is Some <==> chain_fits_layer(DdsBlockFormat::Bc3Unorm, images@)),
{
    compress_2d(images, BlockEncoder::Bc3, false)
}

/// A DDS file holding a mip chain (top level first) as signed BC6H, encoded with the preset
/// for `quality`, laid out as by `compress_bc1_2d`.
pub fn compress_bc6h_2d(images: &Vec<image::DynamicImage>, quality: Bc6hQuality) -> (out: Option<Vec<u8>>)
    requires
        chain_encodable(images@),
    ensures
        images@.len() == 0 ==> (out matches Some(o) && o@.len() == 0),
        images@.len() > 0 ==> (out matches Some(o) ==> dds_chain_bytes(
            BlockEncoder::Bc6h(bc6h_preset(quality)),
            false,
            images@,
            o@,
        )),
        images@.len() > 0 ==> (out is Some <==> chain_fits_layer(DdsBlockFormat::Bc6hSf16, images@)),
{
    let settings = get_bc6h_settings(quality);
    compress_2d(images, BlockEncoder::Bc6h(settings), false)
}

/// A DDS file holding a mip chain (top level first) as BC7, encoded with the preset for
/// `quality` chosen by whether the top level has alpha (straight alpha then, else opaque),
/// laid out as by `compress_bc1_2d`. `None` also for a palette top level, whose alpha is not
/// handled.
pub fn compress_bc7_2d(images: &Vec<image::DynamicImage>, quality: Bc7Quality) -> (out: Option<Vec<u8>>)
    requires
        chain_encodable(images@),
    ensures
        images@.len() == 0 ==> (out matches Some(o) && o@.len() == 0),
        images@.len() > 0 ==> (out matches Some(o) ==> bc7_chain_bytes(
            quality,
            has_alpha_channel(image_color(images@[0])),
            has_alpha_channel(image_color(images@[0])),
            images@,
            o@,
        )),
        images@.len() > 0 ==> (out is Some <==> !(image_color(images@[0]) is Palette) && chain_fits_layer(
            DdsBlockFormat::Bc7Unorm,
            images@,
        )),
{
    if images.len() == 0 {
        return Some(Vec::new());
    }
    let color_type = image_color_type(&images[0]);
    if let ColorType::Palette(_) = color_type {
        return None;
    }
    let has_alpha = alpha_format(color_type);
    let settings = get_bc7_settings(quality, has_alpha);
    compress_2d(images, BlockEncoder::Bc7(settings), has_alpha)
}

/// A DDS file holding a mip chain (top level first) as BC7 encoded with the opaque
/// ultra-fast preset whatever the image holds, alpha straight when `alpha` holds, else
/// opaque; laid out as by `compress_bc1_2d`.
pub fn compress_bc7_ultra_fast_2d(images: &Vec<image::DynamicImage>, alpha: bool) -> (out: Option<Vec<u8>>)
    requires
        chain_encodable(images@),
    ensures
        images@.len() == 0 ==> (out matches Some(o) && o@.len() == 0),
        images@.len() > 0 ==> (out matches Some(o) ==> bc7_chain_bytes(Bc7Quality::UltraFast, false, alpha, images@, o@)),
        images@.len() > 0 ==> (out is Some <==> chain_fits_layer(DdsBlockFormat::Bc7Unorm, images@)),
{
    compress_2d(images, BlockEncoder::Bc7(bc7_opaque_ultra_fast_settings()), alpha)
}

} // verus!
