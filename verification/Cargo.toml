[package]
name = "birber"
version = "0.1.0"
edition = "2021"
publish = false

[dependencies]
regex = "=1.13.1"
serde = { version = "=1.0.229", features = ["derive"] }
serde_json = "=1.0.154"
rusqlite = { version = "=0.41.1", features = ["bundled"] }
kamadak-exif = "=0.6.1"
image = { version = "=0.25.10", default-features = false, features = ["jpeg", "tiff", "webp"] }
jpeg-decoder = { version = "=0.3.2", features = ["platform_independent"] }
tokio = { version = "=1.54.1", features = ["full"] }
axum = "=0.8.9"
tower-http = { version = "=0.6.11", features = ["cors"] }
dotenvy = "=0.15.7"
trpl = "=0.3.0"
