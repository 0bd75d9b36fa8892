[package]
name = "imgcodec"
version = "0.1.0"
edition = "2021"
publish = false

[dependencies]
image = "=0.25.10"
webp = "=0.3.1"
oxipng = "=10.2.1"
mozjpeg-sys = { version = "=2.2.3", features = ["icc_io"] }
libheif-rs = "=3.0.0"
rusqlite = { version = "=0.40.2", features = ["bundled"] }
chrono = "=0.4.45"
