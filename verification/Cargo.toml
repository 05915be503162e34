[package]
name = "drm_syncobj"
version = "0.1.0"
edition = "2021"
publish = false

[dependencies]
rustix = { version = "1", features = ["fs", "event"] }
tokio = { version = "1", features = ["net", "rt"] }
bitflags = "2"
derive_more = { version = "*", features = ["deref"] }
