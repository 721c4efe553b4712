[package]
name = "bracket_grid"
version = "0.1.0"
edition = "2021"
publish = false

[dependencies]
bevy = { version = "0.16", default-features = false, features = ["bevy_asset", "bevy_color", "bevy_core_pipeline", "bevy_render", "bevy_sprite", "bevy_window"] }
bracket-color = "0.8"
glow = "0.16"
glutin = { version = "0.32", default-features = false, features = ["egl", "glx", "x11"] }
glutin-winit = { version = "0.5", default-features = false, features = ["egl", "glx", "x11"] }
parking_lot = "0.12"
raw-window-handle = "0.6"
winit = { version = "0.30", default-features = false, features = ["rwh_06", "x11"] }
