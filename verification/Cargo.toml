[package]
name = "mate_core"
version = "0.1.0"
edition = "2021"
publish = false

[dependencies]
bevy = { version = "*", default-features = false, features = [
    "bevy_winit",
    "x11",
    "bevy_window",
    "bevy_pbr",
    "bevy_core_pipeline",
    "bevy_asset",
] }
bevy_vrm1 = "*"
