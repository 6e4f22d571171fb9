[package]
name = "p2p_core"
version = "0.1.0"
edition = "2021"
publish = false

[dependencies]
uuid = { version = "1", features = ["v4"] }
blake3 = { version = "1", features = ["rayon"] }
tokio = { version = "1", features = ["full"] }
tokio-util = "0.7"
serde = { version = "1", features = ["derive"] }
serde_json = "1"
anyhow = "1"
axum = { version = "0.8", features = ["ws"] }
futures-util = "0.3"
bytes = "1"
quinn = { version = "0.11", default-features = false, features = ["runtime-tokio", "rustls-ring", "log"] }
rustls = { version = "0.23", default-features = false, features = ["ring", "std", "logging", "tls12"] }
rcgen = { version = "0.14", default-features = false, features = ["crypto", "pem", "ring"] }
memmap2 = "*"
directories = "*"
dotenvy = "*"
hostname = "*"
local-ip-address = "*"
tracing = "0.1"
tracing-subscriber = "0.3"
bore-cli = "*"
rand = "0.9"
