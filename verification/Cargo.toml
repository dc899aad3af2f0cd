[package]
name = "simpletally"
version = "0.1.0"
edition = "2021"
publish = false

[dependencies]
chrono = "*"
dark-light = "*"
egui = "*"
egui_glow = { version = "*", features = ["winit"] }
global-hotkey = "*"
glutin = "*"
glutin-winit = "*"
ico = "*"
nucleo = "*"
rfd = "*"
serde = { version = "*", features = ["derive"] }
toml = "*"
tray-icon = "*"
windows-sys = { version = "*", features = ["Win32_Foundation", "Win32_Graphics_Gdi", "Win32_Security", "Win32_Storage_FileSystem", "Win32_System_IO", "Win32_System_Pipes", "Win32_System_Threading", "Win32_UI_WindowsAndMessaging"] }
winit = "*"
