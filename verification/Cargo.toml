[package]
name = "hyprwhspr-rs"
version = "0.1.0"
edition = "2021"
publish = false

[dependencies]
anyhow = "=1.0.104"
arboard = { version = "3", default-features = false }
clap = { version = "=4.6.7", features = ["derive"] }
comfy-table = { version = "=7.2.2", default-features = false }
cpal = "=0.15.3"
dialoguer = "0.11"
directories = "=5.0.1"
evdev = "=0.12.2"
libc = "=0.2.191"
owo-colors = "=4.4.0"
regex = "=1.13.1"
serde = { version = "=1.0.229", features = ["derive"] }
serde_json = "=1.0.154"
time = { version = "=0.3.55", features = ["formatting", "local-offset"] }
tokio = { version = "=1.54.1", features = ["rt-multi-thread", "macros", "sync", "time", "net", "io-util", "io-std", "signal"] }
tracing = "=0.1.44"
tracing-subscriber = { version = "=0.3.23", features = ["env-filter"] }
udev = "=0.9.3"
wl-clipboard-rs = "0.9"
wrtype = "0.1"
