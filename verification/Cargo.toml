[package]
name = "alvr_core"
version = "0.1.0"
edition = "2021"
publish = false

[dependencies]
rand = "=0.8.8"
semver = "1"
serde = { version = "=1.0.229", features = ["derive"] }
serde_json = "=1.0.154"
tokio = { version = "=1.54.1", features = ["rt-multi-thread", "sync", "time", "macros", "net"] }
futures = "=0.3.34"
app_dirs2 = "=2.5.5"
settings-schema = "=0.2.0"
ndk-context = "=0.1.1"
