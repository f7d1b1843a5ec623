[package]
name = "axis_core"
version = "0.1.0"
edition = "2021"
publish = false

[dependencies]
im = "*"
rayon = "*"
serde = { version = "*", features = ["derive"] }
thiserror = "*"
