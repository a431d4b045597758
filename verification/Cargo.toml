[package]
name = "codec"
version = "0.1.0"
edition = "2021"
publish = false

[dependencies]
anyhow = "=1.0.104"
bytes = "=1.12.1"
libloading = "=0.9.0"
rav1e = { version = "=0.8.1", default-features = false, features = ["threading"] }
tracing = "=0.1.44"
ffmpeg-next = "=9.0.0"
shiguredo_amf = "=2026.3.0"
shiguredo_nvcodec = "=2026.2.0"
shiguredo_vpl = "=2026.4.0"
