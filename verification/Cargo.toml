[package]
name = "rekcod"
version = "0.1.0"
edition = "2021"
publish = false

[dependencies]
anyhow = "1"
axum = "0.7"
base64 = "=0.21.7"
bollard = "0.18"
futures = "0.3"
hex = "=0.4.3"
http-range = "=0.1.6"
hyper = { version = "1", features = ["client", "http1"] }
hyper-util = { version = "0.1", features = ["client-legacy", "http1", "tokio"] }
hyperlocal = "0.9"
local-ip-address = "0.6"
mime_guess = "=2.0.5"
minijinja = { version = "=2.24.0", features = ["custom_syntax", "loader"] }
minijinja-autoreload = "2"
notify = "7"
reqwest = { version = "0.12", default-features = false, features = ["json"] }
serde = { version = "1", features = ["derive"] }
serde_json = "1"
serde_yaml = "=0.9.34"
socketioxide = "0.15"
sqlx = { version = "0.8", default-features = false, features = ["runtime-tokio", "sqlite"] }
sysinfo = "0.33"
tokio = { version = "1", features = ["full"] }
tokio-stream = "0.1"
tokio-util = { version = "0.7", features = ["io"] }
tower = { version = "0.5", features = ["util"] }
tower-http = { version = "0.6", features = ["cors", "fs"] }
url = "=2.5.8"
uuid = { version = "=1.29.0", features = ["v4"] }
which = "7"
