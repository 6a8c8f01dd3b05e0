[package]
name = "bevy_4x_camera"
version = "0.1.0"
edition = "2021"
publish = false

[dependencies]
bevy = { version = "=0.5.0", default-features = false, features = ["render"] }
bevy_mod_picking = "=0.4.0"
darling = "=0.10.2"
rand = "=0.8.8"
