[package]
name = "wired_config"
version = "0.1.0"
edition = "2021"
publish = false

[dependencies]
notify = "4"
ron = "0.6"
serde = { version = "1", features = ["derive"] }
xdg = "2"
