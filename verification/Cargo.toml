[package]
name = "filestamp"
version = "0.1.0"
edition = "2021"
publish = false

[dependencies]
clap = { version = "4", features = ["derive"] }
windows = { version = "*", features = ["Win32_Foundation", "Win32_Storage_FileSystem"] }
