[package]
name = "access_gate"
version = "0.1.0"
edition = "2021"
publish = false

[dependencies]
rocket = { version = "0.5", features = ["json"] }
serde = { version = "1", features = ["derive"] }
async-trait = "*"
tokio = { version = "1", features = ["sync", "macros", "rt-multi-thread"] }
