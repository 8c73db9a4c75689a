[package]
name = "baseview"
version = "0.1.0"
edition = "2021"
publish = false

[dependencies]
gl = "0.14"
log = "0.4"
winapi = { version = "0.3", features = ["combaseapi", "guiddef", "libloaderapi", "minwindef", "windef", "wingdi", "winuser"] }
