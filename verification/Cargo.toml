[package]
name = "entitan"
version = "0.1.0"
edition = "2021"
publish = false

[dependencies]
eframe = { version = "0.33", default-features = false, features = ["default_fonts", "glow", "x11"] }
fs2 = "0.4"
image = { version = "0.25", default-features = false, features = ["png"] }
notify = "8"
raw-window-handle = "0.6"
rfd = "0.15"
windows-sys = { version = "0.59", features = ["Win32_Foundation", "Win32_UI_WindowsAndMessaging"] }
