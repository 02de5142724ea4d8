[package]
name = "win_service_logger"
version = "0.1.0"
edition = "2021"
publish = false

[dependencies]
log = "0.4"
widestring = "*"
winapi = { version = "0.3", features = ["winbase", "winnt"] }
