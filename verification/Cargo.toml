[package]
name = "issue_watcher"
version = "0.1.0"
edition = "2021"
publish = false

[dependencies]
assign = "=1.1.1"
directories = "=3.0.2"
http = "=0.2.12"
rand = "=0.8.8"
reqwest = { version = "=0.11.27", features = ["json"] }
ruma = { version = "=0.2.0", features = ["client-api-c"] }
ruma-client = { version = "=0.5.0", features = ["client-api", "reqwest-rustls-webpki-roots"] }
serde = { version = "=1.0.229", features = ["derive"] }
serde_yaml = "=0.8.26"
tokio = { version = "=1.53.2", features = ["macros", "rt-multi-thread"] }
tokio-stream = "=0.1.19"
