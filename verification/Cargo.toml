[package]
name = "brightctrl"
version = "0.1.0"
edition = "2021"
publish = false

[dependencies]
clap = { version = "4", features = ["derive"] }
image = { version = "0.25", default-features = false }
log = "0.4"
serde = { version = "1", features = ["derive"] }
simplelog = "0.12"
windows = { version = "*", features = ["Win32_Foundation", "Win32_Media_MediaFoundation", "Win32_System_Com"] }
wmi = "*"
