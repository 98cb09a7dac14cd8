[package]
name = "media_service"
version = "0.1.0"
edition = "2021"
publish = false

[dependencies]
sha3 = "*"
bs58 = "*"
image = { version = "*", default-features = false, features = ["png", "jpeg", "webp", "gif", "bmp"] }
fast_image_resize = { version = "*", features = ["image"] }
bytes = "*"
tokio = { version = "*", features = ["full"] }
reqwest = { version = "*", default-features = false, features = ["rustls-tls"] }
axum = "*"
http = "*"
tokio-util = { version = "*", features = ["io"] }
aws-config = "*"
aws-sdk-s3 = "*"
async-channel = "*"
config = { version = "*", default-features = false, features = ["toml"] }
serde = { version = "*", features = ["derive"] }
async-trait = "*"
metrics = "*"
metrics-exporter-prometheus = { version = "*", default-features = false }
anyhow = "*"
tonic = "*"
prost = "*"
