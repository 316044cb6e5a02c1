[package]
name = "fimo_utils"
version = "0.1.0"
edition = "2021"
publish = false

[dependencies]
uuid = "=1.29.0"
petgraph = "*"
serde = { version = "1", features = ["derive"] }
serde_json = "1"
