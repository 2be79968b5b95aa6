[package]
name = "rust-ai-agent"
version = "0.1.0"
edition = "2021"
publish = false

[dependencies]
anyhow = "1"
chrono = "0.4"
dashmap = "6"
encoding_rs = "0.8"
indicatif = "0.17"
llama-cpp-2 = "*"
regex = "1"
reqwest = { version = "0.12", default-features = false, features = ["blocking", "rustls-tls"] }
serde = { version = "1", features = ["derive"] }
serde_json = "1"
sysinfo = "*"
tokio = { version = "1", features = ["full"] }
