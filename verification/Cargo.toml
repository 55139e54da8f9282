[package]
name = "initiative_core"
version = "0.1.0"
edition = "2021"
publish = false

[dependencies]
rand = { version = "0.8", features = ["small_rng"] }
uuid = { version = "1", features = ["v4"] }
serde = { version = "1", features = ["derive"] }
caith = "4"
