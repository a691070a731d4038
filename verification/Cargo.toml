[package]
name = "iloader"
version = "0.1.0"
edition = "2021"
publish = false

[dependencies]
clap = { version = "4", default-features = false, features = ["std", "help", "usage", "error-context", "derive", "env"] }
idevice = { version = "=0.1.68", default-features = false, features = ["afc", "core_device_proxy", "house_arrest", "installation_proxy", "remote_pairing", "ring", "rsd", "tunnel_tcp_stack", "usbmuxd", "xpc"] }
isideload = { version = "=0.5.2", default-features = false, features = ["fs-storage", "install", "tokio-mt"] }
plist = "=1.10.3"
reqwest = { version = "0.13", default-features = false }
thiserror = "2"
tokio = { version = "1", features = ["rt-multi-thread", "macros", "fs"] }
tracing = "0.1"
tracing-subscriber = { version = "0.3", default-features = false, features = ["fmt", "env-filter"] }
