[package]
name = "wayscriber"
version = "0.1.0"
edition = "2021"
publish = false

[dependencies]
anyhow = "1"
async-trait = "0.1"
cairo-rs = { version = "*", features = ["png"] }
chrono = "0.4"
dirs = "*"
futures = "0.3"
ksni = "*"
log = "0.4"
pango = "*"
pangocairo = "*"
schemars = "*"
serde = { version = "1", features = ["derive"] }
serde_json = "1"
signal-hook = "0.3"
smithay-client-toolkit = "*"
thiserror = "*"
tokio = { version = "1", features = ["rt-multi-thread", "macros", "time", "sync"] }
toml = "*"
url = "2"
wayland-client = "*"
wl-clipboard-rs = "*"
zbus = "*"
