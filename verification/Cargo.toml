[package]
name = "meteorite"
version = "0.1.0"
edition = "2021"
publish = false

[dependencies]
rand = "=0.9.5"
age = "=0.11.5"
directories = "=6.0.0"
toml = "=1.1.8"
serde = { version = "=1.0.229", features = ["derive"] }
keyring-core = "=1.0.1"
anyhow = "=1.0.104"
thiserror = "=2.0.21"
tokio = { version = "=1.54.1", features = ["sync", "rt-multi-thread", "macros", "time"] }
webbrowser = "=1.2.6"
sysdirs = "=0.9.4"
random-string = "=1.1.0"
rpassword = "=7.5.4"
serde_json = "=1.0.154"
native-dialog = "=0.9.7"
zbus-secret-service-keyring-store = { version = "=1.0.1", features = ["crypto-rust"] }
dirs = "=7.0.0"
