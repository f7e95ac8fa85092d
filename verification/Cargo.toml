[package]
name = "flus"
version = "0.1.0"
edition = "2021"
publish = false

[dependencies]
anyhow = "1"
clap = { version = "4", features = ["derive"] }
serde = "1"
tera = "1"
walkdir = "2"
