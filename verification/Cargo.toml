[package]
name = "chess_app"
version = "0.1.0"
edition = "2021"
publish = false

[dependencies]
lazy_static = "1.4"
resvg = "0.32"
serde = { version = "1", features = ["derive"] }
