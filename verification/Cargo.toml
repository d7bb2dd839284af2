[package]
name = "imbdmlive"
version = "0.1.0"
edition = "2021"
publish = false

[dependencies]
windows = { version = "=0.61.3", features = ["Win32_Foundation", "Win32_System_SystemInformation", "Win32_System_SystemServices", "Win32_System_LibraryLoader", "Win32_Graphics_Direct3D9", "Win32_Graphics_Gdi", "Win32_UI_WindowsAndMessaging"] }
hudhook = "=0.8.3"
imgui = "=0.12.0"
futures = "=0.3.34"
log = "=0.4.35"
serde = { version = "=1.0.229", features = ["derive"] }
serde_json = "=1.0.154"
toml = "=1.1.8"
