[package]
name = "resmgr"
version = "0.1.0"
edition = "2021"
publish = false

[dependencies]
sysinfo = "*"
tokio = { version = "*", features = ["macros", "rt-multi-thread", "time"] }
serde = { version = "*", features = ["derive"] }
toml = "*"
dirs = "*"
log = "*"
env_logger = "*"
mac-notification-sys = "*"
