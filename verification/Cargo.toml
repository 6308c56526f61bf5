[package]
name = "screen_capture"
version = "0.1.0"
edition = "2021"
publish = false

[dependencies]
image = "*"
zune-core = "*"
zune-jpegxl = "*"
xcap = "*"
rayon = "*"
log = "*"
device_query = "*"
