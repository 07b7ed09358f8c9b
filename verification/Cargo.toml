[package]
name = "miaogu_notepad"
version = "1.3.1"
edition = "2021"
publish = false

[dependencies]
base64 = "0.22"
encoding_rs = "0.8"
futures-util = "0.3"
notify = "6"
once_cell = "1"
open = "5"
reqwest = { version = "0.12", default-features = false, features = ["stream", "rustls-tls"] }
serde = { version = "1", features = ["derive"] }
serde_json = "1"
thiserror = "1"
tokio = { version = "1", features = ["time"] }
windows-sys = { version = "0.59", features = ["Win32_Foundation", "Win32_System_Console", "Win32_System_Power", "Win32_UI_WindowsAndMessaging"] }
