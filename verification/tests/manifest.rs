use svc_texture::error::Error;
use svc_texture::process::manifest::{is_output_format_name, parse_output_format};
use svc_texture::schema::TextureFormat;

fn compile_entry(file: &str) -> svc_texture::compile::manifest::TextureEntry {
    svc_texture::compile::manifest::TextureEntry {
        name: file.to_string(),
        file: file.to_string(),
        format: "bc7".to_string(),
        mips: true,
    }
}

fn process_entry(file: &str) -> svc_texture::process::manifest::TextureEntry {
    svc_texture::process::manifest::TextureEntry {
        name: file.to_string(),
        file: file.to_string(),
        format: "bc1".to_string(),
        mips: None,
    }
}

#[test]
fn compile_manifest_with_every_file_present() {
    let manifest = svc_texture::compile::manifest::TextureManifest {
        entries: vec![compile_entry("a.png"), compile_entry("b.png")],
    };
    assert!(manifest.validate(&[true, true]).is_ok());
}

#[test]
fn compile_manifest_names_the_first_missing_file() {
    let manifest = svc_texture::compile::manifest::TextureManifest {
        entries: vec![compile_entry("a.png"), compile_entry("b.png"), compile_entry("c.png")],
    };
    match manifest.validate(&[true, false, false]) {
        Err(Error::MissingFile(file)) => assert_eq!(file, "b.png"),
        Ok(()) => panic!("a missing file was accepted"),
    }
}

#[test]
fn empty_manifest_is_valid() {
    let manifest = svc_texture::process::manifest::TextureManifest { entries: Vec::new() };
    assert!(manifest.validate(&[]).is_ok());
}

#[test]
fn process_manifest_names_the_first_missing_file() {
    let manifest = svc_texture::process::manifest::TextureManifest {
        entries: vec![process_entry("x.tga"), process_entry("y.tga")],
    };
    match manifest.validate(&[false, true]) {
        Err(Error::MissingFile(file)) => assert_eq!(file, "x.tga"),
        Ok(()) => panic!("a missing file was accepted"),
    }
    assert!(manifest.validate(&[true, true]).is_ok());
}

#[test]
fn default_entries() {
    let entry = svc_texture::compile::manifest::TextureEntry::default();
    assert!(entry.name.is_empty() && entry.file.is_empty() && entry.format.is_empty());
    assert!(!entry.mips);
    let entry = svc_texture::process::manifest::TextureEntry::default();
    assert_eq!(entry.mips, None);
}

#[test]
fn output_formats_by_name() {
    assert_eq!(parse_output_format("bc1"), TextureFormat::BC1_UNORM);
    assert_eq!(parse_output_format("bc3"), TextureFormat::BC3_UNORM);
    assert_eq!(parse_output_format("bc6h"), TextureFormat::BC6S_FLOAT);
    assert_eq!(parse_output_format("bc7"), TextureFormat::BC7_UNORM);
}

#[test]
fn output_format_names() {
    for name in ["bc1", "bc3", "bc6h", "bc7"] {
        assert!(is_output_format_name(name));
    }
    for name in ["", "bc2", "BC7", "bc7 ", "astc"] {
        assert!(!is_output_format_name(name));
    }
}
