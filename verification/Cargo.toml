[package]
name = "grundit"
version = "0.1.0"
edition = "2021"
publish = false

[dependencies]
axum = "0.8"
axum-extra = { version = "0.10", features = ["cookie"] }
oauth2 = "5"
serde = { version = "1", features = ["derive"] }
serde_json = "1"
sqlite = "*"
time = "0.3"
tokio = { version = "1", features = ["full"] }
tower-http = { version = "0.6", features = ["fs"] }
tracing = "0.1"
tracing-subscriber = { version = "0.3", features = ["env-filter"] }
