[package]
name = "tick_cli"
version = "0.1.0"
edition = "2021"
publish = false

[dependencies]
chrono = "0.4"
chrono-tz = "0.10"
clap = { version = "4", features = ["derive"] }
comfy-table = "7"
confy = "0.6"
dotenv = "0.15"
iana-time-zone = "0.1"
keyring = { version = "3", features = ["apple-native", "windows-native", "linux-native"] }
open = "5"
ratatui = "0.29"
reqwest = { version = "0.12", default-features = false, features = ["json", "rustls-tls"] }
serde = { version = "1", features = ["derive"] }
serde_json = "1"
tokio = { version = "1", features = ["macros", "rt-multi-thread", "sync"] }
url = "2"
warp = "0.3"
