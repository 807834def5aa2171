[package]
name = "vinyl_viz"
version = "0.1.0"
edition = "2021"
publish = false

[dependencies]
base64 = "0.22"
sha2 = "0.10"
rand = "0.8"
url = "2"
serde = { version = "1", features = ["derive"] }
serde_json = "1"
ureq = { version = "2", features = ["json"] }
tiny_http = "0.12"
opener = "0.7"
ab_glyph = "0.2"
cpal = "0.15"
rustfft = "6"
glam = "0.25"
glow = "0.13"
glutin = "0.31"
glutin-winit = "0.4"
raw-window-handle = "0.5"
winit = "0.29"
image = { version = "0.24", default-features = false, features = ["jpeg", "png"] }
