[package]
name = "ciphercanvas"
version = "0.1.0"
edition = "2021"
publish = false

[dependencies]
toml = "0.8"
qrcode = { version = "0.14", default-features = false, features = ["svg"] }
usvg = "0.44"
resvg = "0.44"
tiny-skia = "0.11"
clap = { version = "4", features = ["derive"] }
log = "0.4"
simple_logger = "4"
anyhow = "1"
