[package]
name = "menubar"
version = "0.1.0"
edition = "2021"
publish = false

[dependencies]
raw-window-handle = "=0.6.2"
windows-sys = { version = "=0.61.2", features = ["Win32_Foundation", "Win32_Graphics_Gdi", "Win32_UI_Shell", "Win32_UI_WindowsAndMessaging"] }
