[package]
name = "cockpit_config"
version = "0.1.0"
edition = "2021"
publish = false

[dependencies]
serde = { version = "*", features = ["derive"] }
serde_json = "*"
base64 = "*"
gltf = { version = "*", default-features = false, features = ["names"] }
