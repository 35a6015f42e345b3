[package]
name = "qingjian"
version = "0.1.0"
edition = "2021"
publish = false

[dependencies]
windows = { version = "=0.62.2", features = ["Win32_UI_TextServices", "Win32_Foundation", "Win32_System_Com"] }
windows-reactor = "=0.100.0"
