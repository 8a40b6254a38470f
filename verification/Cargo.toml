[package]
name = "ptyx"
version = "0.1.0"
edition = "2021"
publish = false

[dependencies]
libc = "=0.2.191"
nix = { version = "=0.29.0", features = ["signal", "term", "process", "fs", "ioctl", "poll"] }
pyo3 = "=0.23.5"
thiserror = "=2.0.21"
windows = { version = "0.58", features = ["Win32_Foundation", "Win32_Security", "Win32_Storage_FileSystem", "Win32_System_Console", "Win32_System_JobObjects", "Win32_System_Pipes", "Win32_System_Threading", "Win32_System_IO"] }
