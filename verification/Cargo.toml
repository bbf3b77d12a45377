[package]
name = "sm"
version = "0.1.0"
edition = "2021"
publish = false

[dependencies]
ansi_rgb = "*"
duct = "*"
serde = { version = "*", features = ["derive"] }
toml = "*"
