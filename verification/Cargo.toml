[package]
name = "guides"
version = "0.1.0"
edition = "2021"
publish = false

[dependencies]
loco-rs = { version = "=0.16.4", default-features = false }

[dev-dependencies]
axum = "*"
tokio = { version = "*", features = ["rt"] }
tower = { version = "*", features = ["util"] }
