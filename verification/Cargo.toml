[package]
name = "s7forge"
version = "0.1.0"
edition = "2021"
publish = false

[dependencies]
bincode = "2"
clap = { version = "4", features = ["derive"] }
dotenv = "0.15"
futures-util = "0.3"
lexopt = "*"
once_cell = "1"
rustc-hash = "2"
serde = { version = "1", features = ["derive"] }
serde_json = "1"
steamworks = "0.11"
tokio = { version = "1", features = ["rt-multi-thread", "macros", "sync", "time"] }
winreg = "*"
