[package]
name = "keympostor"
version = "0.1.0"
edition = "2021"
publish = false

[dependencies]
fxhash = "=0.2.1"
regex = "=1.13.1"
serde = { version = "=1.0.229", features = ["derive"] }
toml = "=0.8.23"
windows = { version = "=0.58.0", features = ["Win32_Foundation", "Win32_UI_Input_KeyboardAndMouse", "Win32_UI_WindowsAndMessaging"] }
