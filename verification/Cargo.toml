[package]
name = "gem_scout"
version = "0.1.0"
edition = "2021"
publish = false

[dependencies]
clap = { version = "*", features = ["derive"] }
colored = "*"
csv = "*"
indicatif = "*"
rayon = "*"
serde = { version = "*", features = ["derive"] }
