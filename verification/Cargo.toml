[package]
name = "iggy_core"
version = "0.1.0"
edition = "2021"
publish = false

[dependencies]
argon2 = "0.5"
axum = "=0.8.9"
compio = { version = "=0.19.2", features = ["fs", "io"] }
jsonwebtoken = { version = "=10.4.0", features = ["rust_crypto"] }
nix = { version = "=0.31.3", features = ["sched"] }
serde = { version = "=1.0.229", features = ["derive"] }
uuid = { version = "=1.29.0", features = ["v7"] }
