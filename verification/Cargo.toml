[package]
name = "msg_interned_id"
version = "0.1.0"
edition = "2021"
publish = false

[dependencies]
bevy_ecs = { version = "0.17", default-features = false, features = ["std"] }
proc-macro2 = "1"
quote = "1"
serde = "1"
syn = "2"

[dev-dependencies]
serde_json = "1"
