[package]
name = "arena"
version = "0.1.0"
edition = "2021"
publish = false

[dependencies]
line_drawing = "0.8"
rand = "0.7"
bincode = "1"
roman = "0.1"
serde = { version = "1", features = ["derive"] }
