[package]
name = "vr-status"
version = "0.1.0"
edition = "2021"
publish = false

[dependencies]
anyhow = "=1.0.104"
cstr = "=0.2.12"
env_logger = "=0.11.11"
libloading = "=0.9.0"
log = "=0.4.34"
rumqttc = "=0.25.1"
rustls-native-certs = "=0.8.5"
serde = { version = "=1.0.229", features = ["derive"] }
serde_json = "=1.0.154"
serde_yaml = "=0.9.34"
tokio = { version = "=1.54.1", features = ["fs", "io-util", "macros", "rt", "sync", "time"] }
windows = { version = "=0.58.0", features = ["Win32_Foundation", "Win32_UI_WindowsAndMessaging"] }
