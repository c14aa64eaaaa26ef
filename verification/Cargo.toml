[package]
name = "fieldbus_master"
version = "0.1.0"
edition = "2021"
publish = false

[dependencies]
shell-words = "*"
ethercrab = "*"
tokio = { version = "*", features = ["macros", "rt-multi-thread", "time", "sync"] }
if-addrs = "*"
log = "*"
anyhow = "*"
simplelog = "*"
pretty_env_logger = "*"
