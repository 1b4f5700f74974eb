[package]
name = "recent_enabler"
version = "0.1.0"
edition = "2021"
publish = false

[dependencies]
anyhow = "1"
chrono = "0.4"
serde = { version = "1", features = ["derive"] }
thiserror = "*"
tracing = "0.1"
windows = { version = "*", features = ["Win32_Foundation", "Win32_Security", "Win32_System_Com", "Win32_System_Services", "Win32_System_Threading", "Win32_UI_Shell", "Win32_UI_WindowsAndMessaging"] }
winreg = "*"
wmi = "*"
