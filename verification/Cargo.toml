[package]
name = "tata_switch"
version = "0.1.0"
edition = "2021"
publish = false

[dependencies]
configparser = "3"
dirs = "5"
once_cell = "1"
serde = { version = "1", features = ["derive"] }
serde_json = "1"
sysinfo = "0.33"
winreg = "0.52"
image = { version = "0.25", default-features = false, features = ["ico"] }
tray-icon = "0.19"
native-windows-gui = "1"
native-windows-derive = "1"
