[package]
name = "ecs_scripting"
version = "0.1.0"
edition = "2021"
publish = false

[dependencies]
bevy_ecs = { version = "=0.5.0", default-features = false }
rhai = "=1.27.0"
