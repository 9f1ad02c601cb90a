[package]
name = "track_relay"
version = "0.1.0"
edition = "2021"
publish = false

[dependencies]
axum = { version = "0.7", features = ["ws"] }
csv = "1"
drm-fourcc = "2"
eyre = "0.6"
image = { version = "0.25", default-features = false, features = ["bmp", "gif", "ico", "jpeg", "png", "qoi", "tiff", "webp"] }
libcamera = "*"
smol_str = { version = "0.2", features = ["serde"] }
tokio = { version = "1", features = ["full"] }
tower-http = { version = "0.5", features = ["compression-gzip", "fs"] }
