[package]
name = "bevy_ratatui_camera"
version = "0.1.0"
edition = "2021"
publish = false

[dependencies]
bevy = { version = "0.15", default-features = false, features = ["bevy_asset", "bevy_color", "bevy_core_pipeline", "bevy_render"] }
bevy_ratatui = { version = "0.7", default-features = false }
crossbeam-channel = "=0.5.17"
image = { version = "=0.25.10", default-features = false }
ratatui = { version = "=0.29.0", default-features = false, features = ["unstable-widget-ref"] }
ratatui-image = { version = "=4.2.0", default-features = false }
