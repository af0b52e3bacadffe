[package]
name = "emu_studio"
version = "0.1.0"
edition = "2021"
publish = false

[dependencies]
anyhow = "=1.0.104"
serde = { version = "=1.0.229", features = ["derive"] }
serde_json = "=1.0.154"
urlencoding = "=2.1.3"
clap = { version = "=4.6.7", features = ["derive"] }
crossterm = "=0.28.1"
walkdir = "=2.5.0"
reqwest = { version = "=0.12.28", default-features = false, features = ["blocking", "json"] }
pulldown-cmark = { version = "=0.9.6", default-features = false }
uuid = { version = "=1.29.0", features = ["v4"] }
chrono = { version = "=0.4.45", default-features = false, features = ["clock"] }
axum = "0.8"
tokio = { version = "=1.54.1", features = ["rt-multi-thread", "macros", "net", "sync"] }
tower-http = { version = "=0.6.11", features = ["cors"] }
futures = "0.3"
tokio-stream = "0.1"
llama-cpp-2 = "*"
