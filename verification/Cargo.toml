[package]
name = "stremio_shell_ng"
version = "0.1.0"
edition = "2021"
publish = false

[dependencies]
flume = "0.11"
libmpv2 = "*"
libmpv2-sys = "*"
native-windows-derive = "1"
native-windows-gui = "1"
open = "5"
rand = "0.8"
serde = { version = "1", features = ["derive"] }
serde_json = "1"
url = "2"
winapi = { version = "0.3", features = ["winuser", "windef", "dwmapi", "minwindef", "winbase", "ntdef"] }
