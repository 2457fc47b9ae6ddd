[package]
name = "virtualcam_rs"
version = "0.1.0"
edition = "2021"
publish = false

[dependencies]
winapi = { version = "0.3", features = ["handleapi", "memoryapi", "synchapi", "winbase", "winnt", "minwindef", "ntdef"] }
winreg = "*"
