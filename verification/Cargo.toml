[package]
name = "svc_texture"
version = "0.1.0"
edition = "2021"
publish = false

[dependencies]
sha2 = "0.8"
smush = "0.1"
base58 = "0.1"
twox-hash = "1"
byteorder = "1"
uuid = { version = "1", features = ["v4"] }
image = "0.21"
ddsfile = "0.2.3"
intel_tex = "0.1"
flatbuffers = "0.8"
toml = "0.5"
serde = { version = "1", features = ["derive"] }
log = "0.4"
fern = "0.5"
chrono = "0.4"
yansi = "0.5"
structopt = "0.2"
filebuffer = "0.4"
