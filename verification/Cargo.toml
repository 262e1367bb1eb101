[package]
name = "purs"
version = "0.1.0"
edition = "2021"
publish = false

[dependencies]
url = "=2.5.8"
ansi_term = "=0.12.1"
async-trait = "=0.1.92"
chrono = "=0.4.45"
clap = "=4.6.7"
crossterm = "=0.25.0"
dirs = "=7.0.0"
futures = "=0.3.34"
octocrab = "=0.41.2"
reqwest = { version = "=0.12.28", default-features = false, features = ["rustls-tls"] }
serde = { version = "=1.0.229", features = ["derive"] }
serde_json = { version = "=1.0.151", features = [] }
tokio = { version = "=1.53.2", features = ["macros", "rt-multi-thread", "fs", "io-util"] }
tui = "=0.19.0"
