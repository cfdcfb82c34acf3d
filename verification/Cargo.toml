[package]
name = "local_control"
version = "0.1.0"
edition = "2021"
publish = false

[dependencies]
uuid = { version = "=1.29.0", features = ["v4"] }
hex = "=0.4.3"
anyhow = "=1.0.104"
clap = { version = "=4.6.7", features = ["derive", "env"] }
clap_complete = "=4.6.11"
color-print = "=0.3.7"
serde = { version = "=1.0.229", features = ["derive"] }
serde_json = "=1.0.154"
thiserror = "=2.0.21"
dirs = "=5.0.1"
reqwest = { version = "=0.12.28", default-features = false, features = ["blocking", "json"] }
chrono = { version = "0.4", default-features = false, features = ["clock", "std"] }

[dev-dependencies]
