[package]
name = "bevy_transform_tools"
version = "0.1.0"
edition = "2021"
publish = false

[dependencies]
bevy = { version = "=0.17.3", default-features = false, features = ["std", "bevy_gizmos", "bevy_window", "bevy_color"] }
