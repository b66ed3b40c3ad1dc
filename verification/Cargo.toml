[package]
name = "snake_engine"
version = "0.1.0"
edition = "2021"
publish = false

[dependencies]
macroquad = { version = "0.4", features = ["audio"] }
quad-rand = "0.2"
serde = { version = "1", features = ["derive"] }
serde_json = "1"
