[package]
name = "bevy_simplenet_events"
version = "0.1.0"
edition = "2021"
publish = false

[dependencies]
bevy_app = "=0.16.1"
bevy_ecs = "=0.16.1"
bevy_simplenet = "=0.16.0"
bincode = "=1.3.3"
serde = { version = "=1.0.229", features = ["derive"] }
serde_with = "=3.24.0"
tracing = "=0.1.44"
