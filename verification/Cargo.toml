[package]
name = "bing-wallpaper-lib"
version = "0.2.32"
edition = "2021"
publish = false

[dependencies]
chrono = "=0.4.45"
rand = "=0.8.8"
serde = { version = "=1.0.229", features = ["derive"] }
serde_json = "=1.0.154"
anyhow = "=1.0.104"
log = "=0.4.35"
env_logger = "=0.11.11"
dirs = "=7.0.0"
uuid = { version = "=1.29.0", features = ["v4"] }
smol = "=2.0.2"
futures = "=0.3.34"
image = { version = "=0.25.10", default-features = false, features = ["jpeg", "png", "webp"] }
windows = { version = "0.58", features = ["Win32_Foundation", "Win32_Graphics_Gdi", "Win32_UI_HiDpi", "Win32_UI_WindowsAndMessaging", "Win32_UI_Shell", "Win32_System_Com", "Win32_System_TaskScheduler", "Win32_System_Registry", "Win32_System_Threading", "Win32_Security", "Win32_System_LibraryLoader", "Win32_System_Variant", "Win32_System_Ole"] }
