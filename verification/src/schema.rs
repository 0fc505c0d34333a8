use vstd::prelude::*;

verus! {

/// The shape of a texture resource.
#[allow(non_camel_case_types)]
#[derive(Clone, Copy, PartialEq, Eq, Debug, Structural)]
pub enum TextureType {
    Tex1dArray,
    Tex2d,
    Tex2dArray,
    Tex3d,
    Cube,
    CubeArray,
}

impl TextureType {
    /// The signed byte that stands for this variant in a serialized texture description.
    pub open spec fn code(self) -> int {
        match self {
            TextureType::Tex1dArray => 0,
            TextureType::Tex2d => 1,
            TextureType::Tex2dArray => 2,
            TextureType::Tex3d => 3,
            TextureType::Cube => 4,
            TextureType::CubeArray => 5,
        }
    }

    /// The signed byte that stands for this variant in a serialized texture description.
    pub fn to_i8(self) -> (code: i8)
        ensures
            code == self.code(),
    {
        match self {
            TextureType::Tex1dArray => 0,
            TextureType::Tex2d => 1,
            TextureType::Tex2dArray => 2,
            TextureType::Tex3d => 3,
            TextureType::Cube => 4,
            TextureType::CubeArray => 5,
        }
    }

    /// The variant that a serialized byte stands for, if any.
    pub fn from_i8(code: i8) -> (res: Option<TextureType>)
        ensures
            res == texture_type_from_code(code as int),
    {
        match code {
            0 => Some(TextureType::Tex1dArray),
            1 => Some(TextureType::Tex2d),
            2 => Some(TextureType::Tex2dArray),
            3 => Some(TextureType::Tex3d),
            4 => Some(TextureType::Cube),
            5 => Some(TextureType::CubeArray),
            _ => None,
        }
    }
}

/// The variant of `TextureType` whose code is `code`; `None` outside `0..6`.
pub open spec fn texture_type_from_code(code: int) -> Option<TextureType> {
    if code == 0 {
        Some(TextureType::Tex1dArray)
    } else if code == 1 {
        Some(TextureType::Tex2d)
    } else if code == 2 {
        Some(TextureType::Tex2dArray)
    } else if code == 3 {
        Some(TextureType::Tex3d)
    } else if code == 4 {
        Some(TextureType::Cube)
    } else if code == 5 {
        Some(TextureType::CubeArray)
    } else {
        None
    }
}

/// The identifier of each variant of `TextureType`, as text.
pub open spec fn texture_type_name(e: TextureType) -> Seq<char> {
    match e {
        TextureType::Tex1dArray => "Tex1dArray"@,
        TextureType::Tex2d => "Tex2d"@,
        TextureType::Tex2dArray => "Tex2dArray"@,
        TextureType::Tex3d => "Tex3d"@,
        TextureType::Cube => "Cube"@,
        TextureType::CubeArray => "CubeArray"@,
    }
}

/// The identifier of a `TextureType` variant, as text.
pub fn enum_name_texture_type(e: TextureType) -> (name: &'static str)
    ensures
        name@ == texture_type_name(e),
{
    match e {
        TextureType::Tex1dArray => "Tex1dArray",
        TextureType::Tex2d => "Tex2d",
        TextureType::Tex2dArray => "Tex2dArray",
        TextureType::Tex3d => "Tex3d",
        TextureType::Cube => "Cube",
        TextureType::CubeArray => "CubeArray",
    }
}

/// Law: the code of each `TextureType` is its value in the FlatBuffers schema.
pub proof fn lemma_texture_type_schema_codes()
    ensures
        TextureType::Tex1dArray.code() == 0,
        TextureType::Tex2d.code() == 1,
        TextureType::Tex2dArray.code() == 2,
        TextureType::Tex3d.code() == 3,
        TextureType::Cube.code() == 4,
        TextureType::CubeArray.code() == 5,
{
}

/// Law: the name of each `TextureType` is its identifier in the FlatBuffers schema.
pub proof fn lemma_texture_type_schema_names()
    ensures
        texture_type_name(TextureType::Tex1dArray) == "Tex1dArray"@,
        texture_type_name(TextureType::Tex2d) == "Tex2d"@,
        texture_type_name(TextureType::Tex2dArray) == "Tex2dArray"@,
        texture_type_name(TextureType::Tex3d) == "Tex3d"@,
        texture_type_name(TextureType::Cube) == "Cube"@,
        texture_type_name(TextureType::CubeArray) == "CubeArray"@,
{
}

/// Law: reading back the code of a `TextureType` gives the same variant, and every code in
/// `0..6` stands for exactly one variant.
pub proof fn lemma_texture_type_code_round_trip(e: TextureType, code: int)
    ensures
        texture_type_from_code(e.code()) == Some(e),
        0 <= e.code() < 6,
        0 <= code < 6 ==> (texture_type_from_code(code) matches Some(f) && f.code() == code),
        !(0 <= code < 6) ==> texture_type_from_code(code) is None,
{
}

/// The pixel format of a texture.
#[allow(non_camel_case_types)]
#[derive(Clone, Copy, PartialEq, Eq, Debug, Structural)]
pub enum TextureFormat {
    UNKNOWN,
    R4G4_UNORM,
    R4G4B4A4_UNORM,
    R5G6B5_UNORM,
    R5G5B5A1_UNORM,
    R8_UNORM,
    R8_SNORM,
    R8_SRGB,
    R8_UINT,
    R8_SINT,
    R8G8_UNORM,
    R8G8_SNORM,
    R8G8_SRGB,
    R8G8_UINT,
    R8G8_SINT,
    R8G8B8_UNORM,
    R8G8B8_SRGB,
    R8G8B8A8_UNORM,
    R8G8B8A8_SNORM,
    R8G8B8A8_SRGB,
    R8G8B8A8_UINT,
    R8G8B8A8_SINT,
    B8G8R8A8_UNORM,
    B8G8R8A8_SRGB,
    R11G11B10_FLOAT,
    R10G10B10A2_UNORM,
    R10G10B10A2_UINT,
    R9G9B9E5_FLOAT,
    R16_FLOAT,
    R16_UNORM,
    R16_SNORM,
    R16_UINT,
    R16_SINT,
    R16G16_FLOAT,
    R16G16_UNORM,
    R16G16_SNORM,
    R16G16_UINT,
    R16G16_SINT,
    R16G16B16A16_FLOAT,
    R16G16B16A16_UNORM,
    R16G16B16A16_SNORM,
    R16G16B16A16_UINT,
    R16G16B16A16_SINT,
    R32_FLOAT,
    R32_UINT,
    R32_SINT,
    R32G32_FLOAT,
    R32G32_UINT,
    R32G32_SINT,
    R32G32B32_FLOAT,
    R32G32B32_UINT,
    R32G32B32_SINT,
    R32G32B32A32_FLOAT,
    R32G32B32A32_UINT,
    R32G32B32A32_SINT,
    BC1_UNORM,
    BC1_SRGB,
    BC1A_UNORM,
    BC1A_SRGB,
    BC2_UNORM,
    BC2_SRGB,
    BC3_UNORM,
    BC3_SRGB,
    BC4_UNORM,
    BC4_SNORM,
    BC5_UNORM,
    BC5_SNORM,
    BC6U_FLOAT,
    BC6S_FLOAT,
    BC7_UNORM,
    BC7_SRGB,
    ASTC_4x4_UNORM,
    ASTC_4x4_SRGB,
    ASTC_5x4_UNORM,
    ASTC_5x4_SRGB,
    ASTC_5x5_UNORM,
    ASTC_5x5_SRGB,
    ASTC_6x5_UNORM,
    ASTC_6x5_SRGB,
    ASTC_6x6_UNORM,
    ASTC_6x6_SRGB,
    ASTC_8x5_UNORM,
    ASTC_8x5_SRGB,
    ASTC_8x6_SRGB,
    ASTC_8x6_UNORM,
    ASTC_8x8_UNORM,
    ASTC_8x8_SRGB,
    ASTC_10x5_UNORM,
    ASTC_10x5_SRGB,
    ASTC_10x6_UNORM,
    ASTC_10x6_SRGB,
    ASTC_10x8_UNORM,
    ASTC_10x8_SRGB,
    ASTC_10x10_UNORM,
    ASTC_10x10_SRGB,
    ASTC_12x10_UNORM,
    ASTC_12x10_SRGB,
    ASTC_12x12_UNORM,
    ASTC_12x12_SRGB,
    D24_UNORM_S8_UINT,
    D32_FLOAT_S8_UINT,
    D16_UNORM,
    D32_FLOAT,
}

impl TextureFormat {
    /// The signed byte that stands for this variant in a serialized texture description.
    pub open spec fn code(self) -> int {
        match self {
            TextureFormat::UNKNOWN => 0,
            TextureFormat::R4G4_UNORM => 1,
            TextureFormat::R4G4B4A4_UNORM => 2,
            TextureFormat::R5G6B5_UNORM => 3,
            TextureFormat::R5G5B5A1_UNORM => 4,
            TextureFormat::R8_UNORM => 5,
            TextureFormat::R8_SNORM => 6,
            TextureFormat::R8_SRGB => 7,
            TextureFormat::R8_UINT => 8,
            TextureFormat::R8_SINT => 9,
            TextureFormat::R8G8_UNORM => 10,
            TextureFormat::R8G8_SNORM => 11,
            TextureFormat::R8G8_SRGB => 12,
            TextureFormat::R8G8_UINT => 13,
            TextureFormat::R8G8_SINT => 14,
            TextureFormat::R8G8B8_UNORM => 15,
            TextureFormat::R8G8B8_SRGB => 16,
            TextureFormat::R8G8B8A8_UNORM => 17,
            TextureFormat::R8G8B8A8_SNORM => 18,
            TextureFormat::R8G8B8A8_SRGB => 19,
            TextureFormat::R8G8B8A8_UINT => 20,
            TextureFormat::R8G8B8A8_SINT => 21,
            TextureFormat::B8G8R8A8_UNORM => 22,
            TextureFormat::B8G8R8A8_SRGB => 23,
            TextureFormat::R11G11B10_FLOAT => 24,
            TextureFormat::R10G10B10A2_UNORM => 25,
            TextureFormat::R10G10B10A2_UINT => 26,
            TextureFormat::R9G9B9E5_FLOAT => 27,
            TextureFormat::R16_FLOAT => 28,
            TextureFormat::R16_UNORM => 29,
            TextureFormat::R16_SNORM => 30,
            TextureFormat::R16_UINT => 31,
            TextureFormat::R16_SINT => 32,
            TextureFormat::R16G16_FLOAT => 33,
            TextureFormat::R16G16_UNORM => 34,
            TextureFormat::R16G16_SNORM => 35,
            TextureFormat::R16G16_UINT => 36,
            TextureFormat::R16G16_SINT => 37,
            TextureFormat::R16G16B16A16_FLOAT => 38,
            TextureFormat::R16G16B16A16_UNORM => 39,
            TextureFormat::R16G16B16A16_SNORM => 40,
            TextureFormat::R16G16B16A16_UINT => 41,
            TextureFormat::R16G16B16A16_SINT => 42,
            TextureFormat::R32_FLOAT => 43,
            TextureFormat::R32_UINT => 44,
            TextureFormat::R32_SINT => 45,
            TextureFormat::R32G32_FLOAT => 46,
            TextureFormat::R32G32_UINT => 47,
            TextureFormat::R32G32_SINT => 48,
            TextureFormat::R32G32B32_FLOAT => 49,
            TextureFormat::R32G32B32_UINT => 50,
            TextureFormat::R32G32B32_SINT => 51,
            TextureFormat::R32G32B32A32_FLOAT => 52,
            TextureFormat::R32G32B32A32_UINT => 53,
            TextureFormat::R32G32B32A32_SINT => 54,
            TextureFormat::BC1_UNORM => 55,
            TextureFormat::BC1_SRGB => 56,
            TextureFormat::BC1A_UNORM => 57,
            TextureFormat::BC1A_SRGB => 58,
            TextureFormat::BC2_UNORM => 59,
            TextureFormat::BC2_SRGB => 60,
            TextureFormat::BC3_UNORM => 61,
            TextureFormat::BC3_SRGB => 62,
            TextureFormat::BC4_UNORM => 63,
            TextureFormat::BC4_SNORM => 64,
            TextureFormat::BC5_UNORM => 65,
            TextureFormat::BC5_SNORM => 66,
            TextureFormat::BC6U_FLOAT => 67,
            TextureFormat::BC6S_FLOAT => 68,
            TextureFormat::BC7_UNORM => 69,
            TextureFormat::BC7_SRGB => 70,
            TextureFormat::ASTC_4x4_UNORM => 71,
            TextureFormat::ASTC_4x4_SRGB => 72,
            TextureFormat::ASTC_5x4_UNORM => 73,
            TextureFormat::ASTC_5x4_SRGB => 74,
            TextureFormat::ASTC_5x5_UNORM => 75,
            TextureFormat::ASTC_5x5_SRGB => 76,
            TextureFormat::ASTC_6x5_UNORM => 77,
            TextureFormat::ASTC_6x5_SRGB => 78,
            TextureFormat::ASTC_6x6_UNORM => 79,
            TextureFormat::ASTC_6x6_SRGB => 80,
            TextureFormat::ASTC_8x5_UNORM => 81,
            TextureFormat::ASTC_8x5_SRGB => 82,
            TextureFormat::ASTC_8x6_SRGB => 83,
            TextureFormat::ASTC_8x6_UNORM => 84,
            TextureFormat::ASTC_8x8_UNORM => 85,
            TextureFormat::ASTC_8x8_SRGB => 86,
            TextureFormat::ASTC_10x5_UNORM => 87,
            TextureFormat::ASTC_10x5_SRGB => 88,
            TextureFormat::ASTC_10x6_UNORM => 89,
            TextureFormat::ASTC_10x6_SRGB => 90,
            TextureFormat::ASTC_10x8_UNORM => 91,
            TextureFormat::ASTC_10x8_SRGB => 92,
            TextureFormat::ASTC_10x10_UNORM => 93,
            TextureFormat::ASTC_10x10_SRGB => 94,
            TextureFormat::ASTC_12x10_UNORM => 95,
            TextureFormat::ASTC_12x10_SRGB => 96,
            TextureFormat::ASTC_12x12_UNORM => 97,
            TextureFormat::ASTC_12x12_SRGB => 98,
            TextureFormat::D24_UNORM_S8_UINT => 99,
            TextureFormat::D32_FLOAT_S8_UINT => 100,
            TextureFormat::D16_UNORM => 101,
            TextureFormat::D32_FLOAT => 102,
        }
    }

    /// The signed byte that stands for this variant in a serialized texture description.
    pub fn to_i8(self) -> (code: i8)
        ensures
            code == self.code(),
    {
        match self {
            TextureFormat::UNKNOWN => 0,
            TextureFormat::R4G4_UNORM => 1,
            TextureFormat::R4G4B4A4_UNORM => 2,
            TextureFormat::R5G6B5_UNORM => 3,
            TextureFormat::R5G5B5A1_UNORM => 4,
            TextureFormat::R8_UNORM => 5,
            TextureFormat::R8_SNORM => 6,
            TextureFormat::R8_SRGB => 7,
            TextureFormat::R8_UINT => 8,
            TextureFormat::R8_SINT => 9,
            TextureFormat::R8G8_UNORM => 10,
            TextureFormat::R8G8_SNORM => 11,
            TextureFormat::R8G8_SRGB => 12,
            TextureFormat::R8G8_UINT => 13,
            TextureFormat::R8G8_SINT => 14,
            TextureFormat::R8G8B8_UNORM => 15,
            TextureFormat::R8G8B8_SRGB => 16,
            TextureFormat::R8G8B8A8_UNORM => 17,
            TextureFormat::R8G8B8A8_SNORM => 18,
            TextureFormat::R8G8B8A8_SRGB => 19,
            TextureFormat::R8G8B8A8_UINT => 20,
            TextureFormat::R8G8B8A8_SINT => 21,
            TextureFormat::B8G8R8A8_UNORM => 22,
            TextureFormat::B8G8R8A8_SRGB => 23,
            TextureFormat::R11G11B10_FLOAT => 24,
            TextureFormat::R10G10B10A2_UNORM => 25,
            TextureFormat::R10G10B10A2_UINT => 26,
            TextureFormat::R9G9B9E5_FLOAT => 27,
            TextureFormat::R16_FLOAT => 28,
            TextureFormat::R16_UNORM => 29,
            TextureFormat::R16_SNORM => 30,
            TextureFormat::R16_UINT => 31,
            TextureFormat::R16_SINT => 32,
            TextureFormat::R16G16_FLOAT => 33,
            TextureFormat::R16G16_UNORM => 34,
            TextureFormat::R16G16_SNORM => 35,
            TextureFormat::R16G16_UINT => 36,
            TextureFormat::R16G16_SINT => 37,
            TextureFormat::R16G16B16A16_FLOAT => 38,
            TextureFormat::R16G16B16A16_UNORM => 39,
            TextureFormat::R16G16B16A16_SNORM => 40,
            TextureFormat::R16G16B16A16_UINT => 41,
            TextureFormat::R16G16B16A16_SINT => 42,
            TextureFormat::R32_FLOAT => 43,
            TextureFormat::R32_UINT => 44,
            TextureFormat::R32_SINT => 45,
            TextureFormat::R32G32_FLOAT => 46,
            TextureFormat::R32G32_UINT => 47,
            TextureFormat::R32G32_SINT => 48,
            TextureFormat::R32G32B32_FLOAT => 49,
            TextureFormat::R32G32B32_UINT => 50,
            TextureFormat::R32G32B32_SINT => 51,
            TextureFormat::R32G32B32A32_FLOAT => 52,
            TextureFormat::R32G32B32A32_UINT => 53,
            TextureFormat::R32G32B32A32_SINT => 54,
            TextureFormat::BC1_UNORM => 55,
            TextureFormat::BC1_SRGB => 56,
            TextureFormat::BC1A_UNORM => 57,
            TextureFormat::BC1A_SRGB => 58,
            TextureFormat::BC2_UNORM => 59,
            TextureFormat::BC2_SRGB => 60,
            TextureFormat::BC3_UNORM => 61,
            TextureFormat::BC3_SRGB => 62,
            TextureFormat::BC4_UNORM => 63,
            TextureFormat::BC4_SNORM => 64,
            TextureFormat::BC5_UNORM => 65,
            TextureFormat::BC5_SNORM => 66,
            TextureFormat::BC6U_FLOAT => 67,
            TextureFormat::BC6S_FLOAT => 68,
            TextureFormat::BC7_UNORM => 69,
            TextureFormat::BC7_SRGB => 70,
            TextureFormat::ASTC_4x4_UNORM => 71,
            TextureFormat::ASTC_4x4_SRGB => 72,
            TextureFormat::ASTC_5x4_UNORM => 73,
            TextureFormat::ASTC_5x4_SRGB => 74,
            TextureFormat::ASTC_5x5_UNORM => 75,
            TextureFormat::ASTC_5x5_SRGB => 76,
            TextureFormat::ASTC_6x5_UNORM => 77,
            TextureFormat::ASTC_6x5_SRGB => 78,
            TextureFormat::ASTC_6x6_UNORM => 79,
            TextureFormat::ASTC_6x6_SRGB => 80,
            TextureFormat::ASTC_8x5_UNORM => 81,
            TextureFormat::ASTC_8x5_SRGB => 82,
            TextureFormat::ASTC_8x6_SRGB => 83,
            TextureFormat::ASTC_8x6_UNORM => 84,
            TextureFormat::ASTC_8x8_UNORM => 85,
            TextureFormat::ASTC_8x8_SRGB => 86,
            TextureFormat::ASTC_10x5_UNORM => 87,
            TextureFormat::ASTC_10x5_SRGB => 88,
            TextureFormat::ASTC_10x6_UNORM => 89,
            TextureFormat::ASTC_10x6_SRGB => 90,
            TextureFormat::ASTC_10x8_UNORM => 91,
            TextureFormat::ASTC_10x8_SRGB => 92,
            TextureFormat::ASTC_10x10_UNORM => 93,
            TextureFormat::ASTC_10x10_SRGB => 94,
            TextureFormat::ASTC_12x10_UNORM => 95,
            TextureFormat::ASTC_12x10_SRGB => 96,
            TextureFormat::ASTC_12x12_UNORM => 97,
            TextureFormat::ASTC_12x12_SRGB => 98,
            TextureFormat::D24_UNORM_S8_UINT => 99,
            TextureFormat::D32_FLOAT_S8_UINT => 100,
            TextureFormat::D16_UNORM => 101,
            TextureFormat::D32_FLOAT => 102,
        }
    }

    /// The variant that a serialized byte stands for, if any.
    pub fn from_i8(code: i8) -> (res: Option<TextureFormat>)
        ensures
            res == texture_format_from_code(code as int),
    {
        match code {
            0 => Some(TextureFormat::UNKNOWN),
            1 => Some(TextureFormat::R4G4_UNORM),
            2 => Some(TextureFormat::R4G4B4A4_UNORM),
            3 => Some(TextureFormat::R5G6B5_UNORM),
            4 => Some(TextureFormat::R5G5B5A1_UNORM),
            5 => Some(TextureFormat::R8_UNORM),
            6 => Some(TextureFormat::R8_SNORM),
            7 => Some(TextureFormat::R8_SRGB),
            8 => Some(TextureFormat::R8_UINT),
            9 => Some(TextureFormat::R8_SINT),
            10 => Some(TextureFormat::R8G8_UNORM),
            11 => Some(TextureFormat::R8G8_SNORM),
            12 => Some(TextureFormat::R8G8_SRGB),
            13 => Some(TextureFormat::R8G8_UINT),
            14 => Some(TextureFormat::R8G8_SINT),
            15 => Some(TextureFormat::R8G8B8_UNORM),
            16 => Some(TextureFormat::R8G8B8_SRGB),
            17 => Some(TextureFormat::R8G8B8A8_UNORM),
            18 => Some(TextureFormat::R8G8B8A8_SNORM),
            19 => Some(TextureFormat::R8G8B8A8_SRGB),
            20 => Some(TextureFormat::R8G8B8A8_UINT),
            21 => Some(TextureFormat::R8G8B8A8_SINT),
            22 => Some(TextureFormat::B8G8R8A8_UNORM),
            23 => Some(TextureFormat::B8G8R8A8_SRGB),
            24 => Some(TextureFormat::R11G11B10_FLOAT),
            25 => Some(TextureFormat::R10G10B10A2_UNORM),
            26 => Some(TextureFormat::R10G10B10A2_UINT),
            27 => Some(TextureFormat::R9G9B9E5_FLOAT),
            28 => Some(TextureFormat::R16_FLOAT),
            29 => Some(TextureFormat::R16_UNORM),
            30 => Some(TextureFormat::R16_SNORM),
            31 => Some(TextureFormat::R16_UINT),
            32 => Some(TextureFormat::R16_SINT),
            33 => Some(TextureFormat::R16G16_FLOAT),
            34 => Some(TextureFormat::R16G16_UNORM),
            35 => Some(TextureFormat::R16G16_SNORM),
            36 => Some(TextureFormat::R16G16_UINT),
            37 => Some(TextureFormat::R16G16_SINT),
            38 => Some(TextureFormat::R16G16B16A16_FLOAT),
            39 => Some(TextureFormat::R16G16B16A16_UNORM),
            40 => Some(TextureFormat::R16G16B16A16_SNORM),
            41 => Some(TextureFormat::R16G16B16A16_UINT),
            42 => Some(TextureFormat::R16G16B16A16_SINT),
            43 => Some(TextureFormat::R32_FLOAT),
            44 => Some(TextureFormat::R32_UINT),
            45 => Some(TextureFormat::R32_SINT),
            46 => Some(TextureFormat::R32G32_FLOAT),
            47 => Some(TextureFormat::R32G32_UINT),
            48 => Some(TextureFormat::R32G32_SINT),
            49 => Some(TextureFormat::R32G32B32_FLOAT),
            50 => Some(TextureFormat::R32G32B32_UINT),
            51 => Some(TextureFormat::R32G32B32_SINT),
            52 => Some(TextureFormat::R32G32B32A32_FLOAT),
            53 => Some(TextureFormat::R32G32B32A32_UINT),
            54 => Some(TextureFormat::R32G32B32A32_SINT),
            55 => Some(TextureFormat::BC1_UNORM),
            56 => Some(TextureFormat::BC1_SRGB),
            57 => Some(TextureFormat::BC1A_UNORM),
            58 => Some(TextureFormat::BC1A_SRGB),
            59 => Some(TextureFormat::BC2_UNORM),
            60 => Some(TextureFormat::BC2_SRGB),
            61 => Some(TextureFormat::BC3_UNORM),
            62 => Some(TextureFormat::BC3_SRGB),
            63 => Some(TextureFormat::BC4_UNORM),
            64 => Some(TextureFormat::BC4_SNORM),
            65 => Some(TextureFormat::BC5_UNORM),
            66 => Some(TextureFormat::BC5_SNORM),
            67 => Some(TextureFormat::BC6U_FLOAT),
            68 => Some(TextureFormat::BC6S_FLOAT),
            69 => Some(TextureFormat::BC7_UNORM),
            70 => Some(TextureFormat::BC7_SRGB),
            71 => Some(TextureFormat::ASTC_4x4_UNORM),
            72 => Some(TextureFormat::ASTC_4x4_SRGB),
            73 => Some(TextureFormat::ASTC_5x4_UNORM),
            74 => Some(TextureFormat::ASTC_5x4_SRGB),
            75 => Some(TextureFormat::ASTC_5x5_UNORM),
            76 => Some(TextureFormat::ASTC_5x5_SRGB),
            77 => Some(TextureFormat::ASTC_6x5_UNORM),
            78 => Some(TextureFormat::ASTC_6x5_SRGB),
            79 => Some(TextureFormat::ASTC_6x6_UNORM),
            80 => Some(TextureFormat::ASTC_6x6_SRGB),
            81 => Some(TextureFormat::ASTC_8x5_UNORM),
            82 => Some(TextureFormat::ASTC_8x5_SRGB),
            83 => Some(TextureFormat::ASTC_8x6_SRGB),
            84 => Some(TextureFormat::ASTC_8x6_UNORM),
            85 => Some(TextureFormat::ASTC_8x8_UNORM),
            86 => Some(TextureFormat::ASTC_8x8_SRGB),
            87 => Some(TextureFormat::ASTC_10x5_UNORM),
            88 => Some(TextureFormat::ASTC_10x5_SRGB),
            89 => Some(TextureFormat::ASTC_10x6_UNORM),
            90 => Some(TextureFormat::ASTC_10x6_SRGB),
            91 => Some(TextureFormat::ASTC_10x8_UNORM),
            92 => Some(TextureFormat::ASTC_10x8_SRGB),
            93 => Some(TextureFormat::ASTC_10x10_UNORM),
            94 => Some(TextureFormat::ASTC_10x10_SRGB),
            95 => Some(TextureFormat::ASTC_12x10_UNORM),
            96 => Some(TextureFormat::ASTC_12x10_SRGB),
            97 => Some(TextureFormat::ASTC_12x12_UNORM),
            98 => Some(TextureFormat::ASTC_12x12_SRGB),
            99 => Some(TextureFormat::D24_UNORM_S8_UINT),
            100 => Some(TextureFormat::D32_FLOAT_S8_UINT),
            101 => Some(TextureFormat::D16_UNORM),
            102 => Some(TextureFormat::D32_FLOAT),
            _ => None,
        }
    }
}

/// The variant of `TextureFormat` whose code is `code`; `None` outside `0..103`.
pub open spec fn texture_format_from_code(code: int) -> Option<TextureFormat> {
    if code == 0 {
        Some(TextureFormat::UNKNOWN)
    } else if code == 1 {
        Some(TextureFormat::R4G4_UNORM)
    } else if code == 2 {
        Some(TextureFormat::R4G4B4A4_UNORM)
    } else if code == 3 {
        Some(TextureFormat::R5G6B5_UNORM)
    } else if code == 4 {
        Some(TextureFormat::R5G5B5A1_UNORM)
    } else if code == 5 {
        Some(TextureFormat::R8_UNORM)
    } else if code == 6 {
        Some(TextureFormat::R8_SNORM)
    } else if code == 7 {
        Some(TextureFormat::R8_SRGB)
    } else if code == 8 {
        Some(TextureFormat::R8_UINT)
    } else if code == 9 {
        Some(TextureFormat::R8_SINT)
    } else if code == 10 {
        Some(TextureFormat::R8G8_UNORM)
    } else if code == 11 {
        Some(TextureFormat::R8G8_SNORM)
    } else if code == 12 {
        Some(TextureFormat::R8G8_SRGB)
    } else if code == 13 {
        Some(TextureFormat::R8G8_UINT)
    } else if code == 14 {
        Some(TextureFormat::R8G8_SINT)
    } else if code == 15 {
        Some(TextureFormat::R8G8B8_UNORM)
    } else if code == 16 {
        Some(TextureFormat::R8G8B8_SRGB)
    } else if code == 17 {
        Some(TextureFormat::R8G8B8A8_UNORM)
    } else if code == 18 {
        Some(TextureFormat::R8G8B8A8_SNORM)
    } else if code == 19 {
        Some(TextureFormat::R8G8B8A8_SRGB)
    } else if code == 20 {
        Some(TextureFormat::R8G8B8A8_UINT)
    } else if code == 21 {
        Some(TextureFormat::R8G8B8A8_SINT)
    } else if code == 22 {
        Some(TextureFormat::B8G8R8A8_UNORM)
    } else if code == 23 {
        Some(TextureFormat::B8G8R8A8_SRGB)
    } else if code == 24 {
        Some(TextureFormat::R11G11B10_FLOAT)
    } else if code == 25 {
        Some(TextureFormat::R10G10B10A2_UNORM)
    } else if code == 26 {
        Some(TextureFormat::R10G10B10A2_UINT)
    } else if code == 27 {
        Some(TextureFormat::R9G9B9E5_FLOAT)
    } else if code == 28 {
        Some(TextureFormat::R16_FLOAT)
    } else if code == 29 {
        Some(TextureFormat::R16_UNORM)
    } else if code == 30 {
        Some(TextureFormat::R16_SNORM)
    } else if code == 31 {
        Some(TextureFormat::R16_UINT)
    } else if code == 32 {
        Some(TextureFormat::R16_SINT)
    } else if code == 33 {
        Some(TextureFormat::R16G16_FLOAT)
    } else if code == 34 {
        Some(TextureFormat::R16G16_UNORM)
    } else if code == 35 {
        Some(TextureFormat::R16G16_SNORM)
    } else if code == 36 {
        Some(TextureFormat::R16G16_UINT)
    } else if code == 37 {
        Some(TextureFormat::R16G16_SINT)
    } else if code == 38 {
        Some(TextureFormat::R16G16B16A16_FLOAT)
    } else if code == 39 {
        Some(TextureFormat::R16G16B16A16_UNORM)
    } else if code == 40 {
        Some(TextureFormat::R16G16B16A16_SNORM)
    } else if code == 41 {
        Some(TextureFormat::R16G16B16A16_UINT)
    } else if code == 42 {
        Some(TextureFormat::R16G16B16A16_SINT)
    } else if code == 43 {
        Some(TextureFormat::R32_FLOAT)
    } else if code == 44 {
        Some(TextureFormat::R32_UINT)
    } else if code == 45 {
        Some(TextureFormat::R32_SINT)
    } else if code == 46 {
        Some(TextureFormat::R32G32_FLOAT)
    } else if code == 47 {
        Some(TextureFormat::R32G32_UINT)
    } else if code == 48 {
        Some(TextureFormat::R32G32_SINT)
    } else if code == 49 {
        Some(TextureFormat::R32G32B32_FLOAT)
    } else if code == 50 {
        Some(TextureFormat::R32G32B32_UINT)
    } else if code == 51 {
        Some(TextureFormat::R32G32B32_SINT)
    } else if code == 52 {
        Some(TextureFormat::R32G32B32A32_FLOAT)
    } else if code == 53 {
        Some(TextureFormat::R32G32B32A32_UINT)
    } else if code == 54 {
        Some(TextureFormat::R32G32B32A32_SINT)
    } else if code == 55 {
        Some(TextureFormat::BC1_UNORM)
    } else if code == 56 {
        Some(TextureFormat::BC1_SRGB)
    } else if code == 57 {
        Some(TextureFormat::BC1A_UNORM)
    } else if code == 58 {
        Some(TextureFormat::BC1A_SRGB)
    } else if code == 59 {
        Some(TextureFormat::BC2_UNORM)
    } else if code == 60 {
        Some(TextureFormat::BC2_SRGB)
    } else if code == 61 {
        Some(TextureFormat::BC3_UNORM)
    } else if code == 62 {
        Some(TextureFormat::BC3_SRGB)
    } else if code == 63 {
        Some(TextureFormat::BC4_UNORM)
    } else if code == 64 {
        Some(TextureFormat::BC4_SNORM)
    } else if code == 65 {
        Some(TextureFormat::BC5_UNORM)
    } else if code == 66 {
        Some(TextureFormat::BC5_SNORM)
    } else if code == 67 {
        Some(TextureFormat::BC6U_FLOAT)
    } else if code == 68 {
        Some(TextureFormat::BC6S_FLOAT)
    } else if code == 69 {
        Some(TextureFormat::BC7_UNORM)
    } else if code == 70 {
        Some(TextureFormat::BC7_SRGB)
    } else if code == 71 {
        Some(TextureFormat::ASTC_4x4_UNORM)
    } else if code == 72 {
        Some(TextureFormat::ASTC_4x4_SRGB)
    } else if code == 73 {
        Some(TextureFormat::ASTC_5x4_UNORM)
    } else if code == 74 {
        Some(TextureFormat::ASTC_5x4_SRGB)
    } else if code == 75 {
        Some(TextureFormat::ASTC_5x5_UNORM)
    } else if code == 76 {
        Some(TextureFormat::ASTC_5x5_SRGB)
    } else if code == 77 {
        Some(TextureFormat::ASTC_6x5_UNORM)
    } else if code == 78 {
        Some(TextureFormat::ASTC_6x5_SRGB)
    } else if code == 79 {
        Some(TextureFormat::ASTC_6x6_UNORM)
    } else if code == 80 {
        Some(TextureFormat::ASTC_6x6_SRGB)
    } else if code == 81 {
        Some(TextureFormat::ASTC_8x5_UNORM)
    } else if code == 82 {
        Some(TextureFormat::ASTC_8x5_SRGB)
    } else if code == 83 {
        Some(TextureFormat::ASTC_8x6_SRGB)
    } else if code == 84 {
        Some(TextureFormat::ASTC_8x6_UNORM)
    } else if code == 85 {
        Some(TextureFormat::ASTC_8x8_UNORM)
    } else if code == 86 {
        Some(TextureFormat::ASTC_8x8_SRGB)
    } else if code == 87 {
        Some(TextureFormat::ASTC_10x5_UNORM)
    } else if code == 88 {
        Some(TextureFormat::ASTC_10x5_SRGB)
    } else if code == 89 {
        Some(TextureFormat::ASTC_10x6_UNORM)
    } else if code == 90 {
        Some(TextureFormat::ASTC_10x6_SRGB)
    } else if code == 91 {
        Some(TextureFormat::ASTC_10x8_UNORM)
    } else if code == 92 {
        Some(TextureFormat::ASTC_10x8_SRGB)
    } else if code == 93 {
        Some(TextureFormat::ASTC_10x10_UNORM)
    } else if code == 94 {
        Some(TextureFormat::ASTC_10x10_SRGB)
    } else if code == 95 {
        Some(TextureFormat::ASTC_12x10_UNORM)
    } else if code == 96 {
        Some(TextureFormat::ASTC_12x10_SRGB)
    } else if code == 97 {
        Some(TextureFormat::ASTC_12x12_UNORM)
    } else if code == 98 {
        Some(TextureFormat::ASTC_12x12_SRGB)
    } else if code == 99 {
        Some(TextureFormat::D24_UNORM_S8_UINT)
    } else if code == 100 {
        Some(TextureFormat::D32_FLOAT_S8_UINT)
    } else if code == 101 {
        Some(TextureFormat::D16_UNORM)
    } else if code == 102 {
        Some(TextureFormat::D32_FLOAT)
    } else {
        None
    }
}

/// The identifier of each variant of `TextureFormat`, as text.
pub open spec fn texture_format_name(e: TextureFormat) -> Seq<char> {
    match e {
        TextureFormat::UNKNOWN => "UNKNOWN"@,
        TextureFormat::R4G4_UNORM => "R4G4_UNORM"@,
        TextureFormat::R4G4B4A4_UNORM => "R4G4B4A4_UNORM"@,
        TextureFormat::R5G6B5_UNORM => "R5G6B5_UNORM"@,
        TextureFormat::R5G5B5A1_UNORM => "R5G5B5A1_UNORM"@,
        TextureFormat::R8_UNORM => "R8_UNORM"@,
        TextureFormat::R8_SNORM => "R8_SNORM"@,
        TextureFormat::R8_SRGB => "R8_SRGB"@,
        TextureFormat::R8_UINT => "R8_UINT"@,
        TextureFormat::R8_SINT => "R8_SINT"@,
        TextureFormat::R8G8_UNORM => "R8G8_UNORM"@,
        TextureFormat::R8G8_SNORM => "R8G8_SNORM"@,
        TextureFormat::R8G8_SRGB => "R8G8_SRGB"@,
        TextureFormat::R8G8_UINT => "R8G8_UINT"@,
        TextureFormat::R8G8_SINT => "R8G8_SINT"@,
        TextureFormat::R8G8B8_UNORM => "R8G8B8_UNORM"@,
        TextureFormat::R8G8B8_SRGB => "R8G8B8_SRGB"@,
        TextureFormat::R8G8B8A8_UNORM => "R8G8B8A8_UNORM"@,
        TextureFormat::R8G8B8A8_SNORM => "R8G8B8A8_SNORM"@,
        TextureFormat::R8G8B8A8_SRGB => "R8G8B8A8_SRGB"@,
        TextureFormat::R8G8B8A8_UINT => "R8G8B8A8_UINT"@,
        TextureFormat::R8G8B8A8_SINT => "R8G8B8A8_SINT"@,
        TextureFormat::B8G8R8A8_UNORM => "B8G8R8A8_UNORM"@,
        TextureFormat::B8G8R8A8_SRGB => "B8G8R8A8_SRGB"@,
        TextureFormat::R11G11B10_FLOAT => "R11G11B10_FLOAT"@,
        TextureFormat::R10G10B10A2_UNORM => "R10G10B10A2_UNORM"@,
        TextureFormat::R10G10B10A2_UINT => "R10G10B10A2_UINT"@,
        TextureFormat::R9G9B9E5_FLOAT => "R9G9B9E5_FLOAT"@,
        TextureFormat::R16_FLOAT => "R16_FLOAT"@,
        TextureFormat::R16_UNORM => "R16_UNORM"@,
        TextureFormat::R16_SNORM => "R16_SNORM"@,
        TextureFormat::R16_UINT => "R16_UINT"@,
        TextureFormat::R16_SINT => "R16_SINT"@,
        TextureFormat::R16G16_FLOAT => "R16G16_FLOAT"@,
        TextureFormat::R16G16_UNORM => "R16G16_UNORM"@,
        TextureFormat::R16G16_SNORM => "R16G16_SNORM"@,
        TextureFormat::R16G16_UINT => "R16G16_UINT"@,
        TextureFormat::R16G16_SINT => "R16G16_SINT"@,
        TextureFormat::R16G16B16A16_FLOAT => "R16G16B16A16_FLOAT"@,
        TextureFormat::R16G16B16A16_UNORM => "R16G16B16A16_UNORM"@,
        TextureFormat::R16G16B16A16_SNORM => "R16G16B16A16_SNORM"@,
        TextureFormat::R16G16B16A16_UINT => "R16G16B16A16_UINT"@,
        TextureFormat::R16G16B16A16_SINT => "R16G16B16A16_SINT"@,
        TextureFormat::R32_FLOAT => "R32_FLOAT"@,
        TextureFormat::R32_UINT => "R32_UINT"@,
        TextureFormat::R32_SINT => "R32_SINT"@,
        TextureFormat::R32G32_FLOAT => "R32G32_FLOAT"@,
        TextureFormat::R32G32_UINT => "R32G32_UINT"@,
        TextureFormat::R32G32_SINT => "R32G32_SINT"@,
        TextureFormat::R32G32B32_FLOAT => "R32G32B32_FLOAT"@,
        TextureFormat::R32G32B32_UINT => "R32G32B32_UINT"@,
        TextureFormat::R32G32B32_SINT => "R32G32B32_SINT"@,
        TextureFormat::R32G32B32A32_FLOAT => "R32G32B32A32_FLOAT"@,
        TextureFormat::R32G32B32A32_UINT => "R32G32B32A32_UINT"@,
        TextureFormat::R32G32B32A32_SINT => "R32G32B32A32_SINT"@,
        TextureFormat::BC1_UNORM => "BC1_UNORM"@,
        TextureFormat::BC1_SRGB => "BC1_SRGB"@,
        TextureFormat::BC1A_UNORM => "BC1A_UNORM"@,
        TextureFormat::BC1A_SRGB => "BC1A_SRGB"@,
        TextureFormat::BC2_UNORM => "BC2_UNORM"@,
        TextureFormat::BC2_SRGB => "BC2_SRGB"@,
        TextureFormat::BC3_UNORM => "BC3_UNORM"@,
        TextureFormat::BC3_SRGB => "BC3_SRGB"@,
        TextureFormat::BC4_UNORM => "BC4_UNORM"@,
        TextureFormat::BC4_SNORM => "BC4_SNORM"@,
        TextureFormat::BC5_UNORM => "BC5_UNORM"@,
        TextureFormat::BC5_SNORM => "BC5_SNORM"@,
        TextureFormat::BC6U_FLOAT => "BC6U_FLOAT"@,
        TextureFormat::BC6S_FLOAT => "BC6S_FLOAT"@,
        TextureFormat::BC7_UNORM => "BC7_UNORM"@,
        TextureFormat::BC7_SRGB => "BC7_SRGB"@,
        TextureFormat::ASTC_4x4_UNORM => "ASTC_4x4_UNORM"@,
        TextureFormat::ASTC_4x4_SRGB => "ASTC_4x4_SRGB"@,
        TextureFormat::ASTC_5x4_UNORM => "ASTC_5x4_UNORM"@,
        TextureFormat::ASTC_5x4_SRGB => "ASTC_5x4_SRGB"@,
        TextureFormat::ASTC_5x5_UNORM => "ASTC_5x5_UNORM"@,
        TextureFormat::ASTC_5x5_SRGB => "ASTC_5x5_SRGB"@,
        TextureFormat::ASTC_6x5_UNORM => "ASTC_6x5_UNORM"@,
        TextureFormat::ASTC_6x5_SRGB => "ASTC_6x5_SRGB"@,
        TextureFormat::ASTC_6x6_UNORM => "ASTC_6x6_UNORM"@,
        TextureFormat::ASTC_6x6_SRGB => "ASTC_6x6_SRGB"@,
        TextureFormat::ASTC_8x5_UNORM => "ASTC_8x5_UNORM"@,
        TextureFormat::ASTC_8x5_SRGB => "ASTC_8x5_SRGB"@,
        TextureFormat::ASTC_8x6_SRGB => "ASTC_8x6_SRGB"@,
        TextureFormat::ASTC_8x6_UNORM => "ASTC_8x6_UNORM"@,
        TextureFormat::ASTC_8x8_UNORM => "ASTC_8x8_UNORM"@,
        TextureFormat::ASTC_8x8_SRGB => "ASTC_8x8_SRGB"@,
        TextureFormat::ASTC_10x5_UNORM => "ASTC_10x5_UNORM"@,
        TextureFormat::ASTC_10x5_SRGB => "ASTC_10x5_SRGB"@,
        TextureFormat::ASTC_10x6_UNORM => "ASTC_10x6_UNORM"@,
        TextureFormat::ASTC_10x6_SRGB => "ASTC_10x6_SRGB"@,
        TextureFormat::ASTC_10x8_UNORM => "ASTC_10x8_UNORM"@,
        TextureFormat::ASTC_10x8_SRGB => "ASTC_10x8_SRGB"@,
        TextureFormat::ASTC_10x10_UNORM => "ASTC_10x10_UNORM"@,
        TextureFormat::ASTC_10x10_SRGB => "ASTC_10x10_SRGB"@,
        TextureFormat::ASTC_12x10_UNORM => "ASTC_12x10_UNORM"@,
        TextureFormat::ASTC_12x10_SRGB => "ASTC_12x10_SRGB"@,
        TextureFormat::ASTC_12x12_UNORM => "ASTC_12x12_UNORM"@,
        TextureFormat::ASTC_12x12_SRGB => "ASTC_12x12_SRGB"@,
        TextureFormat::D24_UNORM_S8_UINT => "D24_UNORM_S8_UINT"@,
        TextureFormat::D32_FLOAT_S8_UINT => "D32_FLOAT_S8_UINT"@,
        TextureFormat::D16_UNORM => "D16_UNORM"@,
        TextureFormat::D32_FLOAT => "D32_FLOAT"@,
    }
}

/// The identifier of a `TextureFormat` variant, as text.
pub fn enum_name_texture_format(e: TextureFormat) -> (name: &'static str)
    ensures
        name@ == texture_format_name(e),
{
    match e {
        TextureFormat::UNKNOWN => "UNKNOWN",
        TextureFormat::R4G4_UNORM => "R4G4_UNORM",
        TextureFormat::R4G4B4A4_UNORM => "R4G4B4A4_UNORM",
        TextureFormat::R5G6B5_UNORM => "R5G6B5_UNORM",
        TextureFormat::R5G5B5A1_UNORM => "R5G5B5A1_UNORM",
        TextureFormat::R8_UNORM => "R8_UNORM",
        TextureFormat::R8_SNORM => "R8_SNORM",
        TextureFormat::R8_SRGB => "R8_SRGB",
        TextureFormat::R8_UINT => "R8_UINT",
        TextureFormat::R8_SINT => "R8_SINT",
        TextureFormat::R8G8_UNORM => "R8G8_UNORM",
        TextureFormat::R8G8_SNORM => "R8G8_SNORM",
        TextureFormat::R8G8_SRGB => "R8G8_SRGB",
        TextureFormat::R8G8_UINT => "R8G8_UINT",
        TextureFormat::R8G8_SINT => "R8G8_SINT",
        TextureFormat::R8G8B8_UNORM => "R8G8B8_UNORM",
        TextureFormat::R8G8B8_SRGB => "R8G8B8_SRGB",
        TextureFormat::R8G8B8A8_UNORM => "R8G8B8A8_UNORM",
        TextureFormat::R8G8B8A8_SNORM => "R8G8B8A8_SNORM",
        TextureFormat::R8G8B8A8_SRGB => "R8G8B8A8_SRGB",
        TextureFormat::R8G8B8A8_UINT => "R8G8B8A8_UINT",
        TextureFormat::R8G8B8A8_SINT => "R8G8B8A8_SINT",
        TextureFormat::B8G8R8A8_UNORM => "B8G8R8A8_UNORM",
        TextureFormat::B8G8R8A8_SRGB => "B8G8R8A8_SRGB",
        TextureFormat::R11G11B10_FLOAT => "R11G11B10_FLOAT",
        TextureFormat::R10G10B10A2_UNORM => "R10G10B10A2_UNORM",
        TextureFormat::R10G10B10A2_UINT => "R10G10B10A2_UINT",
        TextureFormat::R9G9B9E5_FLOAT => "R9G9B9E5_FLOAT",
        TextureFormat::R16_FLOAT => "R16_FLOAT",
        TextureFormat::R16_UNORM => "R16_UNORM",
        TextureFormat::R16_SNORM => "R16_SNORM",
        TextureFormat::R16_UINT => "R16_UINT",
        TextureFormat::R16_SINT => "R16_SINT",
        TextureFormat::R16G16_FLOAT => "R16G16_FLOAT",
        TextureFormat::R16G16_UNORM => "R16G16_UNORM",
        TextureFormat::R16G16_SNORM => "R16G16_SNORM",
        TextureFormat::R16G16_UINT => "R16G16_UINT",
        TextureFormat::R16G16_SINT => "R16G16_SINT",
        TextureFormat::R16G16B16A16_FLOAT => "R16G16B16A16_FLOAT",
        TextureFormat::R16G16B16A16_UNORM => "R16G16B16A16_UNORM",
        TextureFormat::R16G16B16A16_SNORM => "R16G16B16A16_SNORM",
        TextureFormat::R16G16B16A16_UINT => "R16G16B16A16_UINT",
        TextureFormat::R16G16B16A16_SINT => "R16G16B16A16_SINT",
        TextureFormat::R32_FLOAT => "R32_FLOAT",
        TextureFormat::R32_UINT => "R32_UINT",
        TextureFormat::R32_SINT => "R32_SINT",
        TextureFormat::R32G32_FLOAT => "R32G32_FLOAT",
        TextureFormat::R32G32_UINT => "R32G32_UINT",
        TextureFormat::R32G32_SINT => "R32G32_SINT",
        TextureFormat::R32G32B32_FLOAT => "R32G32B32_FLOAT",
        TextureFormat::R32G32B32_UINT => "R32G32B32_UINT",
        TextureFormat::R32G32B32_SINT => "R32G32B32_SINT",
        TextureFormat::R32G32B32A32_FLOAT => "R32G32B32A32_FLOAT",
        TextureFormat::R32G32B32A32_UINT => "R32G32B32A32_UINT",
        TextureFormat::R32G32B32A32_SINT => "R32G32B32A32_SINT",
        TextureFormat::BC1_UNORM => "BC1_UNORM",
        TextureFormat::BC1_SRGB => "BC1_SRGB",
        TextureFormat::BC1A_UNORM => "BC1A_UNORM",
        TextureFormat::BC1A_SRGB => "BC1A_SRGB",
        TextureFormat::BC2_UNORM => "BC2_UNORM",
        TextureFormat::BC2_SRGB => "BC2_SRGB",
        TextureFormat::BC3_UNORM => "BC3_UNORM",
        TextureFormat::BC3_SRGB => "BC3_SRGB",
        TextureFormat::BC4_UNORM => "BC4_UNORM",
        TextureFormat::BC4_SNORM => "BC4_SNORM",
        TextureFormat::BC5_UNORM => "BC5_UNORM",
        TextureFormat::BC5_SNORM => "BC5_SNORM",
        TextureFormat::BC6U_FLOAT => "BC6U_FLOAT",
        TextureFormat::BC6S_FLOAT => "BC6S_FLOAT",
        TextureFormat::BC7_UNORM => "BC7_UNORM",
        TextureFormat::BC7_SRGB => "BC7_SRGB",
        TextureFormat::ASTC_4x4_UNORM => "ASTC_4x4_UNORM",
        TextureFormat::ASTC_4x4_SRGB => "ASTC_4x4_SRGB",
        TextureFormat::ASTC_5x4_UNORM => "ASTC_5x4_UNORM",
        TextureFormat::ASTC_5x4_SRGB => "ASTC_5x4_SRGB",
        TextureFormat::ASTC_5x5_UNORM => "ASTC_5x5_UNORM",
        TextureFormat::ASTC_5x5_SRGB => "ASTC_5x5_SRGB",
        TextureFormat::ASTC_6x5_UNORM => "ASTC_6x5_UNORM",
        TextureFormat::ASTC_6x5_SRGB => "ASTC_6x5_SRGB",
        TextureFormat::ASTC_6x6_UNORM => "ASTC_6x6_UNORM",
        TextureFormat::ASTC_6x6_SRGB => "ASTC_6x6_SRGB",
        TextureFormat::ASTC_8x5_UNORM => "ASTC_8x5_UNORM",
        TextureFormat::ASTC_8x5_SRGB => "ASTC_8x5_SRGB",
        TextureFormat::ASTC_8x6_SRGB => "ASTC_8x6_SRGB",
        TextureFormat::ASTC_8x6_UNORM => "ASTC_8x6_UNORM",
        TextureFormat::ASTC_8x8_UNORM => "ASTC_8x8_UNORM",
        TextureFormat::ASTC_8x8_SRGB => "ASTC_8x8_SRGB",
        TextureFormat::ASTC_10x5_UNORM => "ASTC_10x5_UNORM",
        TextureFormat::ASTC_10x5_SRGB => "ASTC_10x5_SRGB",
        TextureFormat::ASTC_10x6_UNORM => "ASTC_10x6_UNORM",
        TextureFormat::ASTC_10x6_SRGB => "ASTC_10x6_SRGB",
        TextureFormat::ASTC_10x8_UNORM => "ASTC_10x8_UNORM",
        TextureFormat::ASTC_10x8_SRGB => "ASTC_10x8_SRGB",
        TextureFormat::ASTC_10x10_UNORM => "ASTC_10x10_UNORM",
        TextureFormat::ASTC_10x10_SRGB => "ASTC_10x10_SRGB",
        TextureFormat::ASTC_12x10_UNORM => "ASTC_12x10_UNORM",
        TextureFormat::ASTC_12x10_SRGB => "ASTC_12x10_SRGB",
        TextureFormat::ASTC_12x12_UNORM => "ASTC_12x12_UNORM",
        TextureFormat::ASTC_12x12_SRGB => "ASTC_12x12_SRGB",
        TextureFormat::D24_UNORM_S8_UINT => "D24_UNORM_S8_UINT",
        TextureFormat::D32_FLOAT_S8_UINT => "D32_FLOAT_S8_UINT",
        TextureFormat::D16_UNORM => "D16_UNORM",
        TextureFormat::D32_FLOAT => "D32_FLOAT",
    }
}

/// Law: the code of each `TextureFormat` is its value in the FlatBuffers schema.
pub proof fn lemma_texture_format_schema_codes()
    ensures
        TextureFormat::UNKNOWN.code() == 0,
        TextureFormat::R4G4_UNORM.code() == 1,
        TextureFormat::R4G4B4A4_UNORM.code() == 2,
        TextureFormat::R5G6B5_UNORM.code() == 3,
        TextureFormat::R5G5B5A1_UNORM.code() == 4,
        TextureFormat::R8_UNORM.code() == 5,
        TextureFormat::R8_SNORM.code() == 6,
        TextureFormat::R8_SRGB.code() == 7,
        TextureFormat::R8_UINT.code() == 8,
        TextureFormat::R8_SINT.code() == 9,
        TextureFormat::R8G8_UNORM.code() == 10,
        TextureFormat::R8G8_SNORM.code() == 11,
        TextureFormat::R8G8_SRGB.code() == 12,
        TextureFormat::R8G8_UINT.code() == 13,
        TextureFormat::R8G8_SINT.code() == 14,
        TextureFormat::R8G8B8_UNORM.code() == 15,
        TextureFormat::R8G8B8_SRGB.code() == 16,
        TextureFormat::R8G8B8A8_UNORM.code() == 17,
        TextureFormat::R8G8B8A8_SNORM.code() == 18,
        TextureFormat::R8G8B8A8_SRGB.code() == 19,
        TextureFormat::R8G8B8A8_UINT.code() == 20,
        TextureFormat::R8G8B8A8_SINT.code() == 21,
        TextureFormat::B8G8R8A8_UNORM.code() == 22,
        TextureFormat::B8G8R8A8_SRGB.code() == 23,
        TextureFormat::R11G11B10_FLOAT.code() == 24,
        TextureFormat::R10G10B10A2_UNORM.code() == 25,
        TextureFormat::R10G10B10A2_UINT.code() == 26,
        TextureFormat::R9G9B9E5_FLOAT.code() == 27,
        TextureFormat::R16_FLOAT.code() == 28,
        TextureFormat::R16_UNORM.code() == 29,
        TextureFormat::R16_SNORM.code() == 30,
        TextureFormat::R16_UINT.code() == 31,
        TextureFormat::R16_SINT.code() == 32,
        TextureFormat::R16G16_FLOAT.code() == 33,
        TextureFormat::R16G16_UNORM.code() == 34,
        TextureFormat::R16G16_SNORM.code() == 35,
        TextureFormat::R16G16_UINT.code() == 36,
        TextureFormat::R16G16_SINT.code() == 37,
        TextureFormat::R16G16B16A16_FLOAT.code() == 38,
        TextureFormat::R16G16B16A16_UNORM.code() == 39,
        TextureFormat::R16G16B16A16_SNORM.code() == 40,
        TextureFormat::R16G16B16A16_UINT.code() == 41,
        TextureFormat::R16G16B16A16_SINT.code() == 42,
        TextureFormat::R32_FLOAT.code() == 43,
        TextureFormat::R32_UINT.code() == 44,
        TextureFormat::R32_SINT.code() == 45,
        TextureFormat::R32G32_FLOAT.code() == 46,
        TextureFormat::R32G32_UINT.code() == 47,
        TextureFormat::R32G32_SINT.code() == 48,
        TextureFormat::R32G32B32_FLOAT.code() == 49,
        TextureFormat::R32G32B32_UINT.code() == 50,
        TextureFormat::R32G32B32_SINT.code() == 51,
        TextureFormat::R32G32B32A32_FLOAT.code() == 52,
        TextureFormat::R32G32B32A32_UINT.code() == 53,
        TextureFormat::R32G32B32A32_SINT.code() == 54,
        TextureFormat::BC1_UNORM.code() == 55,
        TextureFormat::BC1_SRGB.code() == 56,
        TextureFormat::BC1A_UNORM.code() == 57,
        TextureFormat::BC1A_SRGB.code() == 58,
        TextureFormat::BC2_UNORM.code() == 59,
        TextureFormat::BC2_SRGB.code() == 60,
        TextureFormat::BC3_UNORM.code() == 61,
        TextureFormat::BC3_SRGB.code() == 62,
        TextureFormat::BC4_UNORM.code() == 63,
        TextureFormat::BC4_SNORM.code() == 64,
        TextureFormat::BC5_UNORM.code() == 65,
        TextureFormat::BC5_SNORM.code() == 66,
        TextureFormat::BC6U_FLOAT.code() == 67,
        TextureFormat::BC6S_FLOAT.code() == 68,
        TextureFormat::BC7_UNORM.code() == 69,
        TextureFormat::BC7_SRGB.code() == 70,
        TextureFormat::ASTC_4x4_UNORM.code() == 71,
        TextureFormat::ASTC_4x4_SRGB.code() == 72,
        TextureFormat::ASTC_5x4_UNORM.code() == 73,
        TextureFormat::ASTC_5x4_SRGB.code() == 74,
        TextureFormat::ASTC_5x5_UNORM.code() == 75,
        TextureFormat::ASTC_5x5_SRGB.code() == 76,
        TextureFormat::ASTC_6x5_UNORM.code() == 77,
        TextureFormat::ASTC_6x5_SRGB.code() == 78,
        TextureFormat::ASTC_6x6_UNORM.code() == 79,
        TextureFormat::ASTC_6x6_SRGB.code() == 80,
        TextureFormat::ASTC_8x5_UNORM.code() == 81,
        TextureFormat::ASTC_8x5_SRGB.code() == 82,
        TextureFormat::ASTC_8x6_SRGB.code() == 83,
        TextureFormat::ASTC_8x6_UNORM.code() == 84,
        TextureFormat::ASTC_8x8_UNORM.code() == 85,
        TextureFormat::ASTC_8x8_SRGB.code() == 86,
        TextureFormat::ASTC_10x5_UNORM.code() == 87,
        TextureFormat::ASTC_10x5_SRGB.code() == 88,
        TextureFormat::ASTC_10x6_UNORM.code() == 89,
        TextureFormat::ASTC_10x6_SRGB.code() == 90,
        TextureFormat::ASTC_10x8_UNORM.code() == 91,
        TextureFormat::ASTC_10x8_SRGB.code() == 92,
        TextureFormat::ASTC_10x10_UNORM.code() == 93,
        TextureFormat::ASTC_10x10_SRGB.code() == 94,
        TextureFormat::ASTC_12x10_UNORM.code() == 95,
        TextureFormat::ASTC_12x10_SRGB.code() == 96,
        TextureFormat::ASTC_12x12_UNORM.code() == 97,
        TextureFormat::ASTC_12x12_SRGB.code() == 98,
        TextureFormat::D24_UNORM_S8_UINT.code() == 99,
        TextureFormat::D32_FLOAT_S8_UINT.code() == 100,
        TextureFormat::D16_UNORM.code() == 101,
        TextureFormat::D32_FLOAT.code() == 102,
{
}

/// Law: the name of each `TextureFormat` is its identifier in the FlatBuffers schema.
pub proof fn lemma_texture_format_schema_names()
    ensures
        texture_format_name(TextureFormat::UNKNOWN) == "UNKNOWN"@,
        texture_format_name(TextureFormat::R4G4_UNORM) == "R4G4_UNORM"@,
        texture_format_name(TextureFormat::R4G4B4A4_UNORM) == "R4G4B4A4_UNORM"@,
        texture_format_name(TextureFormat::R5G6B5_UNORM) == "R5G6B5_UNORM"@,
        texture_format_name(TextureFormat::R5G5B5A1_UNORM) == "R5G5B5A1_UNORM"@,
        texture_format_name(TextureFormat::R8_UNORM) == "R8_UNORM"@,
        texture_format_name(TextureFormat::R8_SNORM) == "R8_SNORM"@,
        texture_format_name(TextureFormat::R8_SRGB) == "R8_SRGB"@,
        texture_format_name(TextureFormat::R8_UINT) == "R8_UINT"@,
        texture_format_name(TextureFormat::R8_SINT) == "R8_SINT"@,
        texture_format_name(TextureFormat::R8G8_UNORM) == "R8G8_UNORM"@,
        texture_format_name(TextureFormat::R8G8_SNORM) == "R8G8_SNORM"@,
        texture_format_name(TextureFormat::R8G8_SRGB) == "R8G8_SRGB"@,
        texture_format_name(TextureFormat::R8G8_UINT) == "R8G8_UINT"@,
        texture_format_name(TextureFormat::R8G8_SINT) == "R8G8_SINT"@,
        texture_format_name(TextureFormat::R8G8B8_UNORM) == "R8G8B8_UNORM"@,
        texture_format_name(TextureFormat::R8G8B8_SRGB) == "R8G8B8_SRGB"@,
        texture_format_name(TextureFormat::R8G8B8A8_UNORM) == "R8G8B8A8_UNORM"@,
        texture_format_name(TextureFormat::R8G8B8A8_SNORM) == "R8G8B8A8_SNORM"@,
        texture_format_name(TextureFormat::R8G8B8A8_SRGB) == "R8G8B8A8_SRGB"@,
        texture_format_name(TextureFormat::R8G8B8A8_UINT) == "R8G8B8A8_UINT"@,
        texture_format_name(TextureFormat::R8G8B8A8_SINT) == "R8G8B8A8_SINT"@,
        texture_format_name(TextureFormat::B8G8R8A8_UNORM) == "B8G8R8A8_UNORM"@,
        texture_format_name(TextureFormat::B8G8R8A8_SRGB) == "B8G8R8A8_SRGB"@,
        texture_format_name(TextureFormat::R11G11B10_FLOAT) == "R11G11B10_FLOAT"@,
        texture_format_name(TextureFormat::R10G10B10A2_UNORM) == "R10G10B10A2_UNORM"@,
        texture_format_name(TextureFormat::R10G10B10A2_UINT) == "R10G10B10A2_UINT"@,
        texture_format_name(TextureFormat::R9G9B9E5_FLOAT) == "R9G9B9E5_FLOAT"@,
        texture_format_name(TextureFormat::R16_FLOAT) == "R16_FLOAT"@,
        texture_format_name(TextureFormat::R16_UNORM) == "R16_UNORM"@,
        texture_format_name(TextureFormat::R16_SNORM) == "R16_SNORM"@,
        texture_format_name(TextureFormat::R16_UINT) == "R16_UINT"@,
        texture_format_name(TextureFormat::R16_SINT) == "R16_SINT"@,
        texture_format_name(TextureFormat::R16G16_FLOAT) == "R16G16_FLOAT"@,
        texture_format_name(TextureFormat::R16G16_UNORM) == "R16G16_UNORM"@,
        texture_format_name(TextureFormat::R16G16_SNORM) == "R16G16_SNORM"@,
        texture_format_name(TextureFormat::R16G16_UINT) == "R16G16_UINT"@,
        texture_format_name(TextureFormat::R16G16_SINT) == "R16G16_SINT"@,
        texture_format_name(TextureFormat::R16G16B16A16_FLOAT) == "R16G16B16A16_FLOAT"@,
        texture_format_name(TextureFormat::R16G16B16A16_UNORM) == "R16G16B16A16_UNORM"@,
        texture_format_name(TextureFormat::R16G16B16A16_SNORM) == "R16G16B16A16_SNORM"@,
        texture_format_name(TextureFormat::R16G16B16A16_UINT) == "R16G16B16A16_UINT"@,
        texture_format_name(TextureFormat::R16G16B16A16_SINT) == "R16G16B16A16_SINT"@,
        texture_format_name(TextureFormat::R32_FLOAT) == "R32_FLOAT"@,
        texture_format_name(TextureFormat::R32_UINT) == "R32_UINT"@,
        texture_format_name(TextureFormat::R32_SINT) == "R32_SINT"@,
        texture_format_name(TextureFormat::R32G32_FLOAT) == "R32G32_FLOAT"@,
        texture_format_name(TextureFormat::R32G32_UINT) == "R32G32_UINT"@,
        texture_format_name(TextureFormat::R32G32_SINT) == "R32G32_SINT"@,
        texture_format_name(TextureFormat::R32G32B32_FLOAT) == "R32G32B32_FLOAT"@,
        texture_format_name(TextureFormat::R32G32B32_UINT) == "R32G32B32_UINT"@,
        texture_format_name(TextureFormat::R32G32B32_SINT) == "R32G32B32_SINT"@,
        texture_format_name(TextureFormat::R32G32B32A32_FLOAT) == "R32G32B32A32_FLOAT"@,
        texture_format_name(TextureFormat::R32G32B32A32_UINT) == "R32G32B32A32_UINT"@,
        texture_format_name(TextureFormat::R32G32B32A32_SINT) == "R32G32B32A32_SINT"@,
        texture_format_name(TextureFormat::BC1_UNORM) == "BC1_UNORM"@,
        texture_format_name(TextureFormat::BC1_SRGB) == "BC1_SRGB"@,
        texture_format_name(TextureFormat::BC1A_UNORM) == "BC1A_UNORM"@,
        texture_format_name(TextureFormat::BC1A_SRGB) == "BC1A_SRGB"@,
        texture_format_name(TextureFormat::BC2_UNORM) == "BC2_UNORM"@,
        texture_format_name(TextureFormat::BC2_SRGB) == "BC2_SRGB"@,
        texture_format_name(TextureFormat::BC3_UNORM) == "BC3_UNORM"@,
        texture_format_name(TextureFormat::BC3_SRGB) == "BC3_SRGB"@,
        texture_format_name(TextureFormat::BC4_UNORM) == "BC4_UNORM"@,
        texture_format_name(TextureFormat::BC4_SNORM) == "BC4_SNORM"@,
        texture_format_name(TextureFormat::BC5_UNORM) == "BC5_UNORM"@,
        texture_format_name(TextureFormat::BC5_SNORM) == "BC5_SNORM"@,
        texture_format_name(TextureFormat::BC6U_FLOAT) == "BC6U_FLOAT"@,
        texture_format_name(TextureFormat::BC6S_FLOAT) == "BC6S_FLOAT"@,
        texture_format_name(TextureFormat::BC7_UNORM) == "BC7_UNORM"@,
        texture_format_name(TextureFormat::BC7_SRGB) == "BC7_SRGB"@,
        texture_format_name(TextureFormat::ASTC_4x4_UNORM) == "ASTC_4x4_UNORM"@,
        texture_format_name(TextureFormat::ASTC_4x4_SRGB) == "ASTC_4x4_SRGB"@,
        texture_format_name(TextureFormat::ASTC_5x4_UNORM) == "ASTC_5x4_UNORM"@,
        texture_format_name(TextureFormat::ASTC_5x4_SRGB) == "ASTC_5x4_SRGB"@,
        texture_format_name(TextureFormat::ASTC_5x5_UNORM) == "ASTC_5x5_UNORM"@,
        texture_format_name(TextureFormat::ASTC_5x5_SRGB) == "ASTC_5x5_SRGB"@,
        texture_format_name(TextureFormat::ASTC_6x5_UNORM) == "ASTC_6x5_UNORM"@,
        texture_format_name(TextureFormat::ASTC_6x5_SRGB) == "ASTC_6x5_SRGB"@,
        texture_format_name(TextureFormat::ASTC_6x6_UNORM) == "ASTC_6x6_UNORM"@,
        texture_format_name(TextureFormat::ASTC_6x6_SRGB) == "ASTC_6x6_SRGB"@,
        texture_format_name(TextureFormat::ASTC_8x5_UNORM) == "ASTC_8x5_UNORM"@,
        texture_format_name(TextureFormat::ASTC_8x5_SRGB) == "ASTC_8x5_SRGB"@,
        texture_format_name(TextureFormat::ASTC_8x6_SRGB) == "ASTC_8x6_SRGB"@,
        texture_format_name(TextureFormat::ASTC_8x6_UNORM) == "ASTC_8x6_UNORM"@,
        texture_format_name(TextureFormat::ASTC_8x8_UNORM) == "ASTC_8x8_UNORM"@,
        texture_format_name(TextureFormat::ASTC_8x8_SRGB) == "ASTC_8x8_SRGB"@,
        texture_format_name(TextureFormat::ASTC_10x5_UNORM) == "ASTC_10x5_UNORM"@,
        texture_format_name(TextureFormat::ASTC_10x5_SRGB) == "ASTC_10x5_SRGB"@,
        texture_format_name(TextureFormat::ASTC_10x6_UNORM) == "ASTC_10x6_UNORM"@,
        texture_format_name(TextureFormat::ASTC_10x6_SRGB) == "ASTC_10x6_SRGB"@,
        texture_format_name(TextureFormat::ASTC_10x8_UNORM) == "ASTC_10x8_UNORM"@,
        texture_format_name(TextureFormat::ASTC_10x8_SRGB) == "ASTC_10x8_SRGB"@,
        texture_format_name(TextureFormat::ASTC_10x10_UNORM) == "ASTC_10x10_UNORM"@,
        texture_format_name(TextureFormat::ASTC_10x10_SRGB) == "ASTC_10x10_SRGB"@,
        texture_format_name(TextureFormat::ASTC_12x10_UNORM) == "ASTC_12x10_UNORM"@,
        texture_format_name(TextureFormat::ASTC_12x10_SRGB) == "ASTC_12x10_SRGB"@,
        texture_format_name(TextureFormat::ASTC_12x12_UNORM) == "ASTC_12x12_UNORM"@,
        texture_format_name(TextureFormat::ASTC_12x12_SRGB) == "ASTC_12x12_SRGB"@,
        texture_format_name(TextureFormat::D24_UNORM_S8_UINT) == "D24_UNORM_S8_UINT"@,
        texture_format_name(TextureFormat::D32_FLOAT_S8_UINT) == "D32_FLOAT_S8_UINT"@,
        texture_format_name(TextureFormat::D16_UNORM) == "D16_UNORM"@,
        texture_format_name(TextureFormat::D32_FLOAT) == "D32_FLOAT"@,
{
}

/// Law: reading back the code of a `TextureFormat` gives the same variant, and every code in
/// `0..103` stands for exactly one variant.
pub proof fn lemma_texture_format_code_round_trip(e: TextureFormat, code: int)
    ensures
        texture_format_from_code(e.code()) == Some(e),
        0 <= e.code() < 103,
        0 <= code < 103 ==> (texture_format_from_code(code) matches Some(f) && f.code() == code),
        !(0 <= code < 103) ==> texture_format_from_code(code) is None,
{
}

/// Type-level marker for an offset to a serialized `TextureData` table.
pub struct TextureDataOffset;

/// Type-level marker for an offset to a serialized `TextureDesc` table.
pub struct TextureDescOffset;

/// Type-level marker for an offset to a serialized `Texture` table.
pub struct TextureOffset;

/// Type-level marker for an offset to a serialized `Manifest` table.
pub struct ManifestOffset;

/// The fields of a texture description, before serialization.
#[derive(Clone, Copy, PartialEq, Eq, Debug, Structural)]
pub struct TextureDescArgs {
    pub type_: TextureType,
    pub format: TextureFormat,
    pub width: u32,
    pub height: u32,
    pub depth: u32,
    pub levels: u32,
    pub elements: u32,
}

impl Default for TextureDescArgs {
    /// The schema's defaults: the first texture type, an unknown format and zero sizes.
    fn default() -> (args: Self)
        ensures
            args == (TextureDescArgs {
                type_: TextureType::Tex1dArray,
                format: TextureFormat::UNKNOWN,
                width: 0,
                height: 0,
                depth: 0,
                levels: 0,
                elements: 0,
            }),
    {
        TextureDescArgs {
            type_: TextureType::Tex1dArray,
            format: TextureFormat::UNKNOWN,
            width: 0,
            height: 0,
            depth: 0,
            levels: 0,
            elements: 0,
        }
    }
}

/// The variant of `TextureType` whose name is `name`, read off its length and a few of its
/// characters; `None` where those fit no name.
pub open spec fn texture_type_named(name: Seq<char>) -> Option<TextureType> {
    if name.len() == 4 {
        Some(TextureType::Cube)
    } else if name.len() == 5 {
        if name[3] == '2' {
            Some(TextureType::Tex2d)
        } else if name[3] == '3' {
            Some(TextureType::Tex3d)
        } else {
            None
        }
    } else if name.len() == 9 {
        Some(TextureType::CubeArray)
    } else if name.len() == 10 {
        if name[3] == '1' {
            Some(TextureType::Tex1dArray)
        } else if name[3] == '2' {
            Some(TextureType::Tex2dArray)
        } else {
            None
        }
    } else {
        None
    }
}

/// Law: distinct variants of `TextureType` have distinct names.
pub proof fn lemma_texture_type_names_distinct(a: TextureType, b: TextureType)
    ensures
        texture_type_named(texture_type_name(a)) == Some(a),
        texture_type_name(a) == texture_type_name(b) ==> a == b,
{
    lemma_texture_type_name_read_back(a);
    lemma_texture_type_name_read_back(b);
}

proof fn lemma_texture_type_name_read_back(e: TextureType)
    ensures
        texture_type_named(texture_type_name(e)) == Some(e),
{
    match e {
        TextureType::Tex1dArray => {
            reveal_strlit("Tex1dArray");
        },
        TextureType::Tex2d => {
            reveal_strlit("Tex2d");
        },
        TextureType::Tex2dArray => {
            reveal_strlit("Tex2dArray");
        },
        TextureType::Tex3d => {
            reveal_strlit("Tex3d");
        },
        TextureType::Cube => {
            reveal_strlit("Cube");
        },
        TextureType::CubeArray => {
            reveal_strlit("CubeArray");
        },
    }
}

/// The variant of `TextureFormat` whose name is `name`, read off its length and a few of its
/// characters; `None` where those fit no name.
pub open spec fn texture_format_named(name: Seq<char>) -> Option<TextureFormat> {
    if name.len() == 7 {
        if name[3] == 'N' {
            Some(TextureFormat::UNKNOWN)
        } else if name[3] == 'S' {
            if name[4] == 'I' {
                Some(TextureFormat::R8_SINT)
            } else if name[4] == 'R' {
                Some(TextureFormat::R8_SRGB)
            } else {
                None
            }
        } else if name[3] == 'U' {
            Some(TextureFormat::R8_UINT)
        } else {
            None
        }
    } else if name.len() == 8 {
        if name[2] == '1' {
            Some(TextureFormat::BC1_SRGB)
        } else if name[2] == '2' {
            if name[0] == 'B' {
                Some(TextureFormat::BC2_SRGB)
            } else if name[0] == 'R' {
                if name[4] == 'S' {
                    Some(TextureFormat::R32_SINT)
                } else if name[4] == 'U' {
                    Some(TextureFormat::R32_UINT)
                } else {
                    None
                }
            } else {
                None
            }
        } else if name[2] == '3' {
            Some(TextureFormat::BC3_SRGB)
        } else if name[2] == '6' {
            if name[4] == 'S' {
                Some(TextureFormat::R16_SINT)
            } else if name[4] == 'U' {
                Some(TextureFormat::R16_UINT)
            } else {
                None
            }
        } else if name[2] == '7' {
            Some(TextureFormat::BC7_SRGB)
        } else if name[2] == '_' {
            if name[3] == 'S' {
                Some(TextureFormat::R8_SNORM)
            } else if name[3] == 'U' {
                Some(TextureFormat::R8_UNORM)
            } else {
                None
            }
        } else {
            None
        }
    } else if name.len() == 9 {
        if name[2] == '1' {
            if name[3] == 'A' {
                Some(TextureFormat::BC1A_SRGB)
            } else if name[3] == '_' {
                Some(TextureFormat::BC1_UNORM)
            } else {
                None
            }
        } else if name[2] == '2' {
            if name[0] == 'B' {
                Some(TextureFormat::BC2_UNORM)
            } else if name[0] == 'D' {
                Some(TextureFormat::D32_FLOAT)
            } else if name[0] == 'R' {
                Some(TextureFormat::R32_FLOAT)
            } else {
                None
            }
        } else if name[2] == '3' {
            Some(TextureFormat::BC3_UNORM)
        } else if name[2] == '4' {
            if name[4] == 'S' {
                Some(TextureFormat::BC4_SNORM)
            } else if name[4] == 'U' {
                Some(TextureFormat::BC4_UNORM)
            } else {
                None
            }
        } else if name[2] == '5' {
            if name[4] == 'S' {
                Some(TextureFormat::BC5_SNORM)
            } else if name[4] == 'U' {
                Some(TextureFormat::BC5_UNORM)
            } else {
                None
            }
        } else if name[2] == '6' {
            if name[4] == 'F' {
                Some(TextureFormat::R16_FLOAT)
            } else if name[4] == 'S' {
                Some(TextureFormat::R16_SNORM)
            } else if name[4] == 'U' {
                if name[0] == 'D' {
                    Some(TextureFormat::D16_UNORM)
                } else if name[0] == 'R' {
                    Some(TextureFormat::R16_UNORM)
                } else {
                    None
                }
            } else {
                None
            }
        } else if name[2] == '7' {
            Some(TextureFormat::BC7_UNORM)
        } else if name[2] == 'G' {
            if name[5] == 'S' {
                if name[6] == 'I' {
                    Some(TextureFormat::R8G8_SINT)
                } else if name[6] == 'R' {
                    Some(TextureFormat::R8G8_SRGB)
                } else {
                    None
                }
            } else if name[5] == 'U' {
                Some(TextureFormat::R8G8_UINT)
            } else {
                None
            }
        } else {
            None
        }
    } else if name.len() == 10 {
        if name[3] == '4' {
            Some(TextureFormat::R4G4_UNORM)
        } else if name[3] == '8' {
            if name[5] == 'S' {
                Some(TextureFormat::R8G8_SNORM)
            } else if name[5] == 'U' {
                Some(TextureFormat::R8G8_UNORM)
            } else {
                None
            }
        } else if name[3] == 'A' {
            Some(TextureFormat::BC1A_UNORM)
        } else if name[3] == 'S' {
            Some(TextureFormat::BC6S_FLOAT)
        } else if name[3] == 'U' {
            Some(TextureFormat::BC6U_FLOAT)
        } else {
            None
        }
    } else if name.len() == 11 {
        if name[1] == '1' {
            if name[7] == 'S' {
                Some(TextureFormat::R16G16_SINT)
            } else if name[7] == 'U' {
                Some(TextureFormat::R16G16_UINT)
            } else {
                None
            }
        } else if name[1] == '3' {
            if name[7] == 'S' {
                Some(TextureFormat::R32G32_SINT)
            } else if name[7] == 'U' {
                Some(TextureFormat::R32G32_UINT)
            } else {
                None
            }
        } else if name[1] == '8' {
            Some(TextureFormat::R8G8B8_SRGB)
        } else {
            None
        }
    } else if name.len() == 12 {
        if name[1] == '1' {
            if name[7] == 'F' {
                Some(TextureFormat::R16G16_FLOAT)
            } else if name[7] == 'S' {
                Some(TextureFormat::R16G16_SNORM)
            } else if name[7] == 'U' {
                Some(TextureFormat::R16G16_UNORM)
            } else {
                None
            }
        } else if name[1] == '3' {
            Some(TextureFormat::R32G32_FLOAT)
        } else if name[1] == '5' {
            Some(TextureFormat::R5G6B5_UNORM)
        } else if name[1] == '8' {
            Some(TextureFormat::R8G8B8_UNORM)
        } else {
            None
        }
    } else if name.len() == 13 {
        if name[5] == '4' {
            Some(TextureFormat::ASTC_4x4_SRGB)
        } else if name[5] == '5' {
            if name[7] == '4' {
                Some(TextureFormat::ASTC_5x4_SRGB)
            } else if name[7] == '5' {
                Some(TextureFormat::ASTC_5x5_SRGB)
            } else {
                None
            }
        } else if name[5] == '6' {
            if name[7] == '5' {
                Some(TextureFormat::ASTC_6x5_SRGB)
            } else if name[7] == '6' {
                Some(TextureFormat::ASTC_6x6_SRGB)
            } else {
                None
            }
        } else if name[5] == '8' {
            if name[0] == 'A' {
                if name[7] == '5' {
                    Some(TextureFormat::ASTC_8x5_SRGB)
                } else if name[7] == '6' {
                    Some(TextureFormat::ASTC_8x6_SRGB)
                } else if name[7] == '8' {
                    Some(TextureFormat::ASTC_8x8_SRGB)
                } else {
                    None
                }
            } else if name[0] == 'B' {
                Some(TextureFormat::B8G8R8A8_SRGB)
            } else if name[0] == 'R' {
                if name[9] == 'S' {
                    if name[10] == 'I' {
                        Some(TextureFormat::R8G8B8A8_SINT)
                    } else if name[10] == 'R' {
                        Some(TextureFormat::R8G8B8A8_SRGB)
                    } else {
                        None
                    }
                } else if name[9] == 'U' {
                    Some(TextureFormat::R8G8B8A8_UINT)
                } else {
                    None
                }
            } else {
                None
            }
        } else {
            None
        }
    } else if name.len() == 14 {
        if name[5] == '1' {
            if name[8] == '5' {
                Some(TextureFormat::ASTC_10x5_SRGB)
            } else if name[8] == '6' {
                Some(TextureFormat::ASTC_10x6_SRGB)
            } else if name[8] == '8' {
                Some(TextureFormat::ASTC_10x8_SRGB)
            } else {
                None
            }
        } else if name[5] == '2' {
            if name[10] == 'S' {
                Some(TextureFormat::R32G32B32_SINT)
            } else if name[10] == 'U' {
                Some(TextureFormat::R32G32B32_UINT)
            } else {
                None
            }
        } else if name[5] == '4' {
            if name[0] == 'A' {
                Some(TextureFormat::ASTC_4x4_UNORM)
            } else if name[0] == 'R' {
                Some(TextureFormat::R4G4B4A4_UNORM)
            } else {
                None
            }
        } else if name[5] == '5' {
            if name[7] == '1' {
                Some(TextureFormat::R5G5B5A1_UNORM)
            } else if name[7] == '4' {
                Some(TextureFormat::ASTC_5x4_UNORM)
            } else if name[7] == '5' {
                Some(TextureFormat::ASTC_5x5_UNORM)
            } else {
                None
            }
        } else if name[5] == '6' {
            if name[7] == '5' {
                Some(TextureFormat::ASTC_6x5_UNORM)
            } else if name[7] == '6' {
                Some(TextureFormat::ASTC_6x6_UNORM)
            } else {
                None
            }
        } else if name[5] == '8' {
            if name[0] == 'A' {
                if name[7] == '5' {
                    Some(TextureFormat::ASTC_8x5_UNORM)
                } else if name[7] == '6' {
                    Some(TextureFormat::ASTC_8x6_UNORM)
                } else if name[7] == '8' {
                    Some(TextureFormat::ASTC_8x8_UNORM)
                } else {
                    None
                }
            } else if name[0] == 'B' {
                Some(TextureFormat::B8G8R8A8_UNORM)
            } else if name[0] == 'R' {
                if name[9] == 'S' {
                    Some(TextureFormat::R8G8B8A8_SNORM)
                } else if name[9] == 'U' {
                    Some(TextureFormat::R8G8B8A8_UNORM)
                } else {
                    None
                }
            } else {
                None
            }
        } else if name[5] == '9' {
            Some(TextureFormat::R9G9B9E5_FLOAT)
        } else {
            None
        }
    } else if name.len() == 15 {
        if name[8] == '0' {
            Some(TextureFormat::R11G11B10_FLOAT)
        } else if name[8] == '1' {
            if name[6] == '0' {
                Some(TextureFormat::ASTC_10x10_SRGB)
            } else if name[6] == '2' {
                if name[9] == '0' {
                    Some(TextureFormat::ASTC_12x10_SRGB)
                } else if name[9] == '2' {
                    Some(TextureFormat::ASTC_12x12_SRGB)
                } else {
                    None
                }
            } else {
                None
            }
        } else if name[8] == '2' {
            Some(TextureFormat::R32G32B32_FLOAT)
        } else if name[8] == '5' {
            Some(TextureFormat::ASTC_10x5_UNORM)
        } else if name[8] == '6' {
            Some(TextureFormat::ASTC_10x6_UNORM)
        } else if name[8] == '8' {
            Some(TextureFormat::ASTC_10x8_UNORM)
        } else {
            None
        }
    } else if name.len() == 16 {
        if name[6] == '0' {
            Some(TextureFormat::ASTC_10x10_UNORM)
        } else if name[6] == '2' {
            if name[9] == '0' {
                Some(TextureFormat::ASTC_12x10_UNORM)
            } else if name[9] == '2' {
                Some(TextureFormat::ASTC_12x12_UNORM)
            } else {
                None
            }
        } else if name[6] == 'B' {
            Some(TextureFormat::R10G10B10A2_UINT)
        } else {
            None
        }
    } else if name.len() == 17 {
        if name[5] == '0' {
            Some(TextureFormat::R10G10B10A2_UNORM)
        } else if name[5] == '2' {
            if name[13] == 'S' {
                Some(TextureFormat::R32G32B32A32_SINT)
            } else if name[13] == 'U' {
                Some(TextureFormat::R32G32B32A32_UINT)
            } else {
                None
            }
        } else if name[5] == '6' {
            if name[13] == 'S' {
                Some(TextureFormat::R16G16B16A16_SINT)
            } else if name[13] == 'U' {
                Some(TextureFormat::R16G16B16A16_UINT)
            } else {
                None
            }
        } else if name[5] == 'L' {
            Some(TextureFormat::D32_FLOAT_S8_UINT)
        } else if name[5] == 'N' {
            Some(TextureFormat::D24_UNORM_S8_UINT)
        } else {
            None
        }
    } else if name.len() == 18 {
        if name[13] == 'F' {
            if name[1] == '1' {
                Some(TextureFormat::R16G16B16A16_FLOAT)
            } else if name[1] == '3' {
                Some(TextureFormat::R32G32B32A32_FLOAT)
            } else {
                None
            }
        } else if name[13] == 'S' {
            Some(TextureFormat::R16G16B16A16_SNORM)
        } else if name[13] == 'U' {
            Some(TextureFormat::R16G16B16A16_UNORM)
        } else {
            None
        }
    } else {
        None
    }
}

/// Law: distinct variants of `TextureFormat` have distinct names.
pub proof fn lemma_texture_format_names_distinct(a: TextureFormat, b: TextureFormat)
    ensures
        texture_format_named(texture_format_name(a)) == Some(a),
        texture_format_name(a) == texture_format_name(b) ==> a == b,
{
    lemma_texture_format_name_read_back(a);
    lemma_texture_format_name_read_back(b);
}

proof fn lemma_texture_format_name_read_back(e: TextureFormat)
    ensures
        texture_format_named(texture_format_name(e)) == Some(e),
{
    match e {
        TextureFormat::UNKNOWN => {
            reveal_strlit("UNKNOWN");
        },
        TextureFormat::R4G4_UNORM => {
            reveal_strlit("R4G4_UNORM");
        },
        TextureFormat::R4G4B4A4_UNORM => {
            reveal_strlit("R4G4B4A4_UNORM");
        },
        TextureFormat::R5G6B5_UNORM => {
            reveal_strlit("R5G6B5_UNORM");
        },
        TextureFormat::R5G5B5A1_UNORM => {
            reveal_strlit("R5G5B5A1_UNORM");
        },
        TextureFormat::R8_UNORM => {
            reveal_strlit("R8_UNORM");
        },
        TextureFormat::R8_SNORM => {
            reveal_strlit("R8_SNORM");
        },
        TextureFormat::R8_SRGB => {
            reveal_strlit("R8_SRGB");
        },
        TextureFormat::R8_UINT => {
            reveal_strlit("R8_UINT");
        },
        TextureFormat::R8_SINT => {
            reveal_strlit("R8_SINT");
        },
        TextureFormat::R8G8_UNORM => {
            reveal_strlit("R8G8_UNORM");
        },
        TextureFormat::R8G8_SNORM => {
            reveal_strlit("R8G8_SNORM");
        },
        TextureFormat::R8G8_SRGB => {
            reveal_strlit("R8G8_SRGB");
        },
        TextureFormat::R8G8_UINT => {
            reveal_strlit("R8G8_UINT");
        },
        TextureFormat::R8G8_SINT => {
            reveal_strlit("R8G8_SINT");
        },
        TextureFormat::R8G8B8_UNORM => {
            reveal_strlit("R8G8B8_UNORM");
        },
        TextureFormat::R8G8B8_SRGB => {
            reveal_strlit("R8G8B8_SRGB");
        },
        TextureFormat::R8G8B8A8_UNORM => {
            reveal_strlit("R8G8B8A8_UNORM");
        },
        TextureFormat::R8G8B8A8_SNORM => {
            reveal_strlit("R8G8B8A8_SNORM");
        },
        TextureFormat::R8G8B8A8_SRGB => {
            reveal_strlit("R8G8B8A8_SRGB");
        },
        TextureFormat::R8G8B8A8_UINT => {
            reveal_strlit("R8G8B8A8_UINT");
        },
        TextureFormat::R8G8B8A8_SINT => {
            reveal_strlit("R8G8B8A8_SINT");
        },
        TextureFormat::B8G8R8A8_UNORM => {
            reveal_strlit("B8G8R8A8_UNORM");
        },
        TextureFormat::B8G8R8A8_SRGB => {
            reveal_strlit("B8G8R8A8_SRGB");
        },
        TextureFormat::R11G11B10_FLOAT => {
            reveal_strlit("R11G11B10_FLOAT");
        },
        TextureFormat::R10G10B10A2_UNORM => {
            reveal_strlit("R10G10B10A2_UNORM");
        },
        TextureFormat::R10G10B10A2_UINT => {
            reveal_strlit("R10G10B10A2_UINT");
        },
        TextureFormat::R9G9B9E5_FLOAT => {
            reveal_strlit("R9G9B9E5_FLOAT");
        },
        TextureFormat::R16_FLOAT => {
            reveal_strlit("R16_FLOAT");
        },
        TextureFormat::R16_UNORM => {
            reveal_strlit("R16_UNORM");
        },
        TextureFormat::R16_SNORM => {
            reveal_strlit("R16_SNORM");
        },
        TextureFormat::R16_UINT => {
            reveal_strlit("R16_UINT");
        },
        TextureFormat::R16_SINT => {
            reveal_strlit("R16_SINT");
        },
        TextureFormat::R16G16_FLOAT => {
            reveal_strlit("R16G16_FLOAT");
        },
        TextureFormat::R16G16_UNORM => {
            reveal_strlit("R16G16_UNORM");
        },
        TextureFormat::R16G16_SNORM => {
            reveal_strlit("R16G16_SNORM");
        },
        TextureFormat::R16G16_UINT => {
            reveal_strlit("R16G16_UINT");
        },
        TextureFormat::R16G16_SINT => {
            reveal_strlit("R16G16_SINT");
        },
        TextureFormat::R16G16B16A16_FLOAT => {
            reveal_strlit("R16G16B16A16_FLOAT");
        },
        TextureFormat::R16G16B16A16_UNORM => {
            reveal_strlit("R16G16B16A16_UNORM");
        },
        TextureFormat::R16G16B16A16_SNORM => {
            reveal_strlit("R16G16B16A16_SNORM");
        },
        TextureFormat::R16G16B16A16_UINT => {
            reveal_strlit("R16G16B16A16_UINT");
        },
        TextureFormat::R16G16B16A16_SINT => {
            reveal_strlit("R16G16B16A16_SINT");
        },
        TextureFormat::R32_FLOAT => {
            reveal_strlit("R32_FLOAT");
        },
        TextureFormat::R32_UINT => {
            reveal_strlit("R32_UINT");
        },
        TextureFormat::R32_SINT => {
            reveal_strlit("R32_SINT");
        },
        TextureFormat::R32G32_FLOAT => {
            reveal_strlit("R32G32_FLOAT");
        },
        TextureFormat::R32G32_UINT => {
            reveal_strlit("R32G32_UINT");
        },
        TextureFormat::R32G32_SINT => {
            reveal_strlit("R32G32_SINT");
        },
        TextureFormat::R32G32B32_FLOAT => {
            reveal_strlit("R32G32B32_FLOAT");
        },
        TextureFormat::R32G32B32_UINT => {
            reveal_strlit("R32G32B32_UINT");
        },
        TextureFormat::R32G32B32_SINT => {
            reveal_strlit("R32G32B32_SINT");
        },
        TextureFormat::R32G32B32A32_FLOAT => {
            reveal_strlit("R32G32B32A32_FLOAT");
        },
        TextureFormat::R32G32B32A32_UINT => {
            reveal_strlit("R32G32B32A32_UINT");
        },
        TextureFormat::R32G32B32A32_SINT => {
            reveal_strlit("R32G32B32A32_SINT");
        },
        TextureFormat::BC1_UNORM => {
            reveal_strlit("BC1_UNORM");
        },
        TextureFormat::BC1_SRGB => {
            reveal_strlit("BC1_SRGB");
        },
        TextureFormat::BC1A_UNORM => {
            reveal_strlit("BC1A_UNORM");
        },
        TextureFormat::BC1A_SRGB => {
            reveal_strlit("BC1A_SRGB");
        },
        TextureFormat::BC2_UNORM => {
            reveal_strlit("BC2_UNORM");
        },
        TextureFormat::BC2_SRGB => {
            reveal_strlit("BC2_SRGB");
        },
        TextureFormat::BC3_UNORM => {
            reveal_strlit("BC3_UNORM");
        },
        TextureFormat::BC3_SRGB => {
            reveal_strlit("BC3_SRGB");
        },
        TextureFormat::BC4_UNORM => {
            reveal_strlit("BC4_UNORM");
        },
        TextureFormat::BC4_SNORM => {
            reveal_strlit("BC4_SNORM");
        },
        TextureFormat::BC5_UNORM => {
            reveal_strlit("BC5_UNORM");
        },
        TextureFormat::BC5_SNORM => {
            reveal_strlit("BC5_SNORM");
        },
        TextureFormat::BC6U_FLOAT => {
            reveal_strlit("BC6U_FLOAT");
        },
        TextureFormat::BC6S_FLOAT => {
            reveal_strlit("BC6S_FLOAT");
        },
        TextureFormat::BC7_UNORM => {
            reveal_strlit("BC7_UNORM");
        },
        TextureFormat::BC7_SRGB => {
            reveal_strlit("BC7_SRGB");
        },
        TextureFormat::ASTC_4x4_UNORM => {
            reveal_strlit("ASTC_4x4_UNORM");
        },
        TextureFormat::ASTC_4x4_SRGB => {
            reveal_strlit("ASTC_4x4_SRGB");
        },
        TextureFormat::ASTC_5x4_UNORM => {
            reveal_strlit("ASTC_5x4_UNORM");
        },
        TextureFormat::ASTC_5x4_SRGB => {
            reveal_strlit("ASTC_5x4_SRGB");
        },
        TextureFormat::ASTC_5x5_UNORM => {
            reveal_strlit("ASTC_5x5_UNORM");
        },
        TextureFormat::ASTC_5x5_SRGB => {
            reveal_strlit("ASTC_5x5_SRGB");
        },
        TextureFormat::ASTC_6x5_UNORM => {
            reveal_strlit("ASTC_6x5_UNORM");
        },
        TextureFormat::ASTC_6x5_SRGB => {
            reveal_strlit("ASTC_6x5_SRGB");
        },
        TextureFormat::ASTC_6x6_UNORM => {
            reveal_strlit("ASTC_6x6_UNORM");
        },
        TextureFormat::ASTC_6x6_SRGB => {
            reveal_strlit("ASTC_6x6_SRGB");
        },
        TextureFormat::ASTC_8x5_UNORM => {
            reveal_strlit("ASTC_8x5_UNORM");
        },
        TextureFormat::ASTC_8x5_SRGB => {
            reveal_strlit("ASTC_8x5_SRGB");
        },
        TextureFormat::ASTC_8x6_SRGB => {
            reveal_strlit("ASTC_8x6_SRGB");
        },
        TextureFormat::ASTC_8x6_UNORM => {
            reveal_strlit("ASTC_8x6_UNORM");
        },
        TextureFormat::ASTC_8x8_UNORM => {
            reveal_strlit("ASTC_8x8_UNORM");
        },
        TextureFormat::ASTC_8x8_SRGB => {
            reveal_strlit("ASTC_8x8_SRGB");
        },
        TextureFormat::ASTC_10x5_UNORM => {
            reveal_strlit("ASTC_10x5_UNORM");
        },
        TextureFormat::ASTC_10x5_SRGB => {
            reveal_strlit("ASTC_10x5_SRGB");
        },
        TextureFormat::ASTC_10x6_UNORM => {
            reveal_strlit("ASTC_10x6_UNORM");
        },
        TextureFormat::ASTC_10x6_SRGB => {
            reveal_strlit("ASTC_10x6_SRGB");
        },
        TextureFormat::ASTC_10x8_UNORM => {
            reveal_strlit("ASTC_10x8_UNORM");
        },
        TextureFormat::ASTC_10x8_SRGB => {
            reveal_strlit("ASTC_10x8_SRGB");
        },
        TextureFormat::ASTC_10x10_UNORM => {
            reveal_strlit("ASTC_10x10_UNORM");
        },
        TextureFormat::ASTC_10x10_SRGB => {
            reveal_strlit("ASTC_10x10_SRGB");
        },
        TextureFormat::ASTC_12x10_UNORM => {
            reveal_strlit("ASTC_12x10_UNORM");
        },
        TextureFormat::ASTC_12x10_SRGB => {
            reveal_strlit("ASTC_12x10_SRGB");
        },
        TextureFormat::ASTC_12x12_UNORM => {
            reveal_strlit("ASTC_12x12_UNORM");
        },
        TextureFormat::ASTC_12x12_SRGB => {
            reveal_strlit("ASTC_12x12_SRGB");
        },
        TextureFormat::D24_UNORM_S8_UINT => {
            reveal_strlit("D24_UNORM_S8_UINT");
        },
        TextureFormat::D32_FLOAT_S8_UINT => {
            reveal_strlit("D32_FLOAT_S8_UINT");
        },
        TextureFormat::D16_UNORM => {
            reveal_strlit("D16_UNORM");
        },
        TextureFormat::D32_FLOAT => {
            reveal_strlit("D32_FLOAT");
        },
    }
}

} // verus!
