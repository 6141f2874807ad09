[package]
name = "lazyjira"
version = "0.1.0"
edition = "2021"
publish = false

[dependencies]
base64 = "0.22"
chrono = "0.4"
nerd_fonts = "*"
serde = { version = "1", features = ["derive"] }
serde_json = "1"
reqwest = { version = "0.12", default-features = false, features = ["json", "rustls-tls"] }
tokio = { version = "1", features = ["macros", "rt-multi-thread", "sync", "time"] }
crossterm = "0.28"
ratatui = "0.29"
dotenv = "0.15"
env_logger = "0.11"
log = "0.4"
color-eyre = "0.6"
anyhow = "1"
async-trait = "0.1"
once_cell = "1"
