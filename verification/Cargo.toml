[package]
name = "rust_pty"
version = "0.1.0"
edition = "2021"
publish = false

[dependencies]
libc = "0.2"
rustix = { version = "1", features = ["fs", "pty", "termios"] }
tokio = { version = "1", features = ["net", "rt", "time"] }
windows-sys = { version = "0.59", features = ["Win32_Foundation", "Win32_Storage_FileSystem", "Win32_System_IO"] }
