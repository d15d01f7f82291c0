[package]
name = "frame_pacing"
version = "0.1.0"
edition = "2021"
publish = false

[dependencies]
anyhow = "1"
bitflags = "1"
finl_unicode = "1"
lazy_static = "1"
log = "0.4"
mlua = { version = "0.9", features = ["lua54", "vendored"] }
