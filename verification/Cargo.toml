[package]
name = "serial_bridge"
version = "0.1.0"
edition = "2021"
publish = false

[dependencies]
nix = { version = "*", features = ["term"] }
serialport = { version = "*", default-features = false }
tokio = { version = "*", features = ["io-util", "macros", "net", "rt", "rt-multi-thread"] }
winapi = { version = "0.3", features = ["commapi", "fileapi", "handleapi", "winbase", "winnt"] }
