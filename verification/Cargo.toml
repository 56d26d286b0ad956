[package]
name = "bevy_dyn_component"
version = "0.1.0"
edition = "2021"
publish = false

[dependencies]
bevy_app = { version = "0.13", default-features = false }
bevy_ecs = { version = "0.13", default-features = false }
bevy_ptr = "0.13"
bevy_utils = "0.13"
