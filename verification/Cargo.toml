[package]
name = "zapret-rust"
version = "0.1.0"
edition = "2021"
publish = false

[dependencies]
serde_json = "1"
clap = { version = "4", features = ["derive"] }
crossterm = "0.28"
ratatui = "0.28"
ctrlc = "3"
chrono = "0.4"
ureq = "2"
flate2 = "1"
tar = "0.4"
zip = "2"
sysinfo = "0.32"
regex = "1"
windows-service = "0.7"
rust-i18n = "3"
