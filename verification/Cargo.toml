[package]
name = "dikt"
version = "0.1.0"
edition = "2021"
publish = false

[dependencies]
anyhow = "=1.0.104"
evdev = { version = "=0.12.2", features = ["tokio"] }
ferrous-opencc = "*"
log = "=0.4.34"
natural = "=0.5.0"
notify-rust = "=4.18.2"
regex = "=1.13.1"
serde_json = "=1.0.154"
strsim = "=0.11.1"
tokio = { version = "=1.54.1", features = ["rt", "time", "sync", "macros"] }
zbus = "=4.4.0"
