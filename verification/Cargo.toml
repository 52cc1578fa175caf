[package]
name = "game_time_manager"
version = "0.1.0"
edition = "2021"
publish = false

[dependencies]
regex = "=1.13.1"
sysinfo = "=0.29.11"
crossbeam = "=0.8.5"
signal-hook = "=0.3.18"
serde = { version = "=1.0.229", features = ["derive"] }
toml = "=0.7.8"
native-windows-gui = "=1.0.13"
native-windows-derive = "=1.0.5"
winapi = { version = "=0.3.9", features = ["winuser", "wingdi", "windef", "minwindef", "shellapi", "winver"] }
winreg = "=0.11.0"
image = { version = "=0.24.9", default-features = false, features = ["png"] }
