[package]
name = "datagen_core"
version = "0.1.0"
edition = "2021"
publish = false

[dependencies]
anyhow = "1"
clap = { version = "4", features = ["derive"] }
rand_chacha = "0.3"
rand_core = "0.6"
rayon = "1"
serde = { version = "1", features = ["derive"] }
serde_json = "1"
