[package]
name = "render"
version = "0.1.0"
edition = "2021"
publish = false

[dependencies]
minijinja = "*"
serde_json = "*"
serde = { version = "*", features = ["derive"] }
once_cell = "*"
