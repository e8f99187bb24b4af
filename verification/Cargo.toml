[package]
name = "fornax"
version = "0.1.0"
edition = "2021"
publish = false

[dependencies]
image = { version = "=0.25.10", default-features = false }
rayon = "=1.12.0"
serde = { version = "=1.0.229", features = ["derive"] }
