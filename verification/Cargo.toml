[package]
name = "keytap"
version = "0.1.0"
edition = "2021"
publish = false

[dependencies]
crossbeam-channel = "0.5"
thiserror = "2"
serde = { version = "1", features = ["derive"] }
evdev = "0.13"
nix = { version = "0.29", features = ["fs"] }
windows-sys = { version = "0.59", features = ["Win32_Foundation", "Win32_System_Threading", "Win32_UI_Input_KeyboardAndMouse", "Win32_UI_WindowsAndMessaging"] }
objc2-core-foundation = "0.3"
objc2-core-graphics = "0.3"
