use svc_texture::schema::{
    enum_name_texture_format, enum_name_texture_type, TextureDescArgs, TextureFormat, TextureType,
};

#[test]
fn texture_type_names_are_identifiers() {
    assert_eq!(enum_name_texture_type(TextureType::Tex1dArray), "Tex1dArray");
    assert_eq!(enum_name_texture_type(TextureType::Tex2d), "Tex2d");
    assert_eq!(enum_name_texture_type(TextureType::Cube), "Cube");
    assert_eq!(enum_name_texture_type(TextureType::CubeArray), "CubeArray");
}

#[test]
fn texture_format_names_are_identifiers() {
    assert_eq!(enum_name_texture_format(TextureFormat::UNKNOWN), "UNKNOWN");
    assert_eq!(enum_name_texture_format(TextureFormat::R8G8B8A8_UNORM), "R8G8B8A8_UNORM");
    assert_eq!(enum_name_texture_format(TextureFormat::BC7_SRGB), "BC7_SRGB");
    assert_eq!(enum_name_texture_format(TextureFormat::ASTC_8x6_SRGB), "ASTC_8x6_SRGB");
    assert_eq!(enum_name_texture_format(TextureFormat::D32_FLOAT), "D32_FLOAT");
}

#[test]
fn texture_format_codes_follow_the_schema() {
    assert_eq!(TextureFormat::UNKNOWN.to_i8(), 0);
    assert_eq!(TextureFormat::BC1_UNORM.to_i8(), 55);
    assert_eq!(TextureFormat::BC7_UNORM.to_i8(), 69);
    assert_eq!(TextureFormat::D32_FLOAT.to_i8(), 102);
    assert_eq!(TextureFormat::from_i8(68), Some(TextureFormat::BC6S_FLOAT));
    assert_eq!(TextureFormat::from_i8(103), None);
    assert_eq!(TextureFormat::from_i8(-1), None);
}

#[test]
fn texture_type_codes_round_trip() {
    for code in -128i8..=127 {
        match TextureType::from_i8(code) {
            Some(t) => assert_eq!(t.to_i8(), code),
            None => assert!(code < 0 || code > 5),
        }
    }
    assert_eq!(TextureType::from_i8(3), Some(TextureType::Tex3d));
}

#[test]
fn texture_format_codes_round_trip() {
    for code in -128i8..=127 {
        match TextureFormat::from_i8(code) {
            Some(f) => assert_eq!(f.to_i8(), code),
            None => assert!(code < 0 || code > 102),
        }
    }
}

#[test]
fn texture_desc_args_default() {
    let args = TextureDescArgs::default();
    assert_eq!(args.type_, TextureType::Tex1dArray);
    assert_eq!(args.format, TextureFormat::UNKNOWN);
    assert_eq!(
        (args.width, args.height, args.depth, args.levels, args.elements),
        (0, 0, 0, 0, 0)
    );
}
