[package]
name = "openxr_core"
version = "0.1.0"
edition = "2021"
publish = false

[dependencies]
openxr = { version = "*", default-features = false }
ash = "*"
gfx-hal = "*"
