[package]
name = "xanthidae"
version = "0.1.0"
edition = "2021"
publish = false

[dependencies]
chrono = "0.4"
regex = "1"
lazy_static = "1"
log = "0.4"
simplelog = "*"
scopeguard = "1"
winapi = { version = "0.3", features = ["winuser", "commdlg", "combaseapi", "objbase", "shobjidl", "shobjidl_core", "winerror", "winbase", "winnt", "minwindef"] }
