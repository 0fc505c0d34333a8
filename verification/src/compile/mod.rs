pub mod manifest;
pub mod texture;
