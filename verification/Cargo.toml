[package]
name = "capsglow"
version = "0.1.0"
edition = "2021"
publish = false

[dependencies]
anyhow = "=1.0.104"
env_logger = "=0.11.11"
log = "=0.4.35"
softbuffer = "=0.4.8"
tray-controls = "=0.1.2"
tray-icon = "=0.26.1"
winit = "=0.30.13"
windows = { version = "=0.58.0", features = ["Win32_Foundation", "Win32_UI_Input_KeyboardAndMouse", "Win32_Graphics_Dwm"] }
