[package]
name = "publish_gateway"
version = "0.1.0"
edition = "2021"
publish = false

[dependencies]
dotenvy = "0.15"
rdkafka = "0.36"
serde = { version = "1", features = ["derive"] }
tokio = { version = "1", features = ["full"] }
warp = "0.3"
