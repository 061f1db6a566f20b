[package]
name = "d3d9_hook_imgui_rs"
version = "0.1.0"
edition = "2021"
publish = false

[dependencies]
hudhook = "=0.9.3"
imgui = "=0.12.0"
tracing = "=0.1.44"
windows = { version = "0.58", features = ["Win32_Foundation", "Win32_System_LibraryLoader"] }
