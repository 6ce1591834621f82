[package]
name = "pathtracer"
version = "0.1.0"
edition = "2021"
publish = false

[dependencies]
rand = "*"
glam = { version = "*", features = ["serde"] }
rayon = "*"
serde = { version = "*", features = ["derive"] }
serde_json = "*"
chrono = "*"
