[package]
name = "airsense"
version = "0.1.0"
edition = "2021"
publish = false

[dependencies]
heapless = "0.8"
embedded-hal-async = "1"
embassy-time = { version = "0.4", features = ["std"] }
libm = "0.2"
biquad = "*"
serde = { version = "1", features = ["derive"] }
serde_json = "1"
thiserror = "2"
tokio = { version = "1", features = ["full"] }
prost = "*"
axum = { version = "*", features = ["ws"] }
tracing = "0.1"
config = { version = "*", default-features = false, features = ["toml"] }
