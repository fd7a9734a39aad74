[package]
name = "olympia-core"
version = "0.1.0"
edition = "2021"
publish = false

[dependencies]
goblin = "*"
petgraph = "*"
uuid = { version = "*", features = ["v4"] }
log = "*"
env_logger = "*"
clap = { version = "*", features = ["derive"] }
thiserror = "*"
