[package]
name = "zkscan_api"
version = "0.1.0"
edition = "2021"
publish = false

[dependencies]
anyhow = "*"
async-stream = "*"
axum = "=0.8.9"
deadpool-postgres = "=0.14.2"
dotenvy = "*"
ethers-core = "=2.0.14"
futures-util = "*"
http-body-util = "*"
log = "*"
redis = { version = "=1.7.1", features = ["tokio-comp"] }
redis_pool = "=0.10.1"
serde = { version = "*", features = ["derive"] }
serde_json = "*"
tokio = { version = "=1.53.2", features = ["macros", "rt-multi-thread", "sync", "time", "net"] }
tokio-postgres = { version = "=0.7.18", features = ["with-serde_json-1"] }
tokio-stream = "*"
