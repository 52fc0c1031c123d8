[package]
name = "print_agent"
version = "0.2.5"
edition = "2021"
publish = false

[dependencies]
base64 = "=0.22.1"
serde = { version = "=1.0.229", features = ["derive"] }
serde_json = "=1.0.154"
rust_socketio = "=0.6.0"
windows = { version = "=0.58.0", features = ["Win32_Foundation", "Win32_Graphics_Gdi", "Win32_Graphics_Printing", "Win32_Security", "Win32_System_Power", "Win32_System_SystemInformation", "Win32_System_Threading", "Win32_UI_WindowsAndMessaging"] }
winreg = "=0.52.0"
