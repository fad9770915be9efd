[package]
name = "kivinge"
version = "0.1.0"
edition = "2021"
publish = false

[dependencies]
base64 = "0.22"
bytes = "1"
chrono = { version = "0.4", features = ["serde"] }
clap = { version = "4", features = ["derive"] }
clap_complete = "4"
crossterm = "0.27"
dirs = "5"
fork = "0.1"
fuser = { version = "0.14", default-features = false }
libc = "0.2"
opener = "0.7"
pkce = "0.2"
qrcode = { version = "0.14", default-features = false }
ratatui = "0.27"
reqwest = { version = "0.12", default-features = false, features = ["blocking", "json", "rustls-tls"] }
rust_decimal = "1"
serde = { version = "1", features = ["derive"] }
serde_json = "1"
tabled = "0.15"
thiserror = "1"
tracing = "0.1"
tracing-subscriber = { version = "0.3", features = ["env-filter"] }
