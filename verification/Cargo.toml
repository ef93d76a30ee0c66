[package]
name = "tick_bridge"
version = "0.1.0"
edition = "2021"
publish = false

[dependencies]
bevy_app = "*"
bevy_ecs = "*"
tokio = { version = "*", features = ["rt-multi-thread", "sync", "time"] }
