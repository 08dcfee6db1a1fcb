[package]
name = "nodeharbor_agent"
version = "0.1.0"
edition = "2021"
publish = false

[dependencies]
anyhow = "1"
async-trait = "0.1"
battery = "0.7"
chrono = { version = "0.4", features = ["serde"] }
clap = { version = "4", features = ["derive", "env"] }
dirs = "*"
fs2 = "0.4"
libc = "0.2"
reqwest = { version = "0.12", default-features = false, features = ["json", "rustls-tls"] }
serde = { version = "1", features = ["derive"] }
serde_json = "1"
sha2 = "0.10"
sysinfo = "*"
tempfile = "3"
tokio = { version = "1", features = ["full"] }
user-idle = "*"
uuid = { version = "1", features = ["v4", "serde"] }
