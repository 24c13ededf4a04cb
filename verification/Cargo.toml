[package]
name = "opcua_node_id"
version = "0.1.0"
edition = "2021"
publish = false

[dependencies]
serde = { version = "1", features = ["derive"] }
serde_yaml = "0.9"
shellexpand = "3"

[dev-dependencies]
regex = "1"
