[package]
name = "bevy_iced"
version = "0.1.0"
edition = "2021"
publish = false

[dependencies]
bevy_app = "=0.17.3"
bevy_derive = "=0.17.3"
bevy_ecs = "=0.17.3"
bevy_input = "=0.17.3"
bevy_render = "=0.17.3"
bevy_window = "=0.17.3"
cfg-if = "1"
iced_core = "=0.14.0"
iced_graphics = { version = "=0.14.0", default-features = false }
iced_runtime = "=0.14.0"
iced_wgpu = { version = "=0.14.0", default-features = false }
iced_widget = { version = "=0.14.2", default-features = false }
