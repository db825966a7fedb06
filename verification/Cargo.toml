[package]
name = "klippo"
version = "0.1.0"
edition = "2021"
publish = false

[dependencies]
regex = "1"
shell-words = "1"
blake3 = "1"
directories = "6"
image = { version = "0.25", default-features = false, features = ["png"] }
serde = { version = "1", features = ["derive"] }
toml = "*"
rusqlite = { version = "*", features = ["bundled"] }
zbus = "5"
zvariant = "5"
tokio = { version = "1", features = ["full"] }
async-channel = "2"
async-trait = "0.1"
gtk4 = "*"
libadwaita = "*"
arboard = "3"
qrcode = "*"
clap = { version = "4", features = ["derive"] }
anyhow = "1"
thiserror = "2"
tracing = "0.1"
tracing-subscriber = { version = "0.3", features = ["env-filter"] }
