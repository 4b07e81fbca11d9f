[package]
name = "loco_minijinja_engine"
version = "0.1.0"
edition = "2021"
publish = false

[dependencies]
async-trait = "0.1"
axum = "0.8"
loco-rs = { version = "0.16", default-features = false }
minijinja = { version = "2", features = ["loader"] }
minijinja-autoreload = "2"
serde = "1"

[dev-dependencies]
serde_json = "1"
