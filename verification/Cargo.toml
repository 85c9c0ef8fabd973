[package]
name = "ghost_os_toolkit"
version = "0.1.0"
edition = "2021"
publish = false

[dependencies]
sha2 = "*"
hex = "*"
procfs = "*"
nix = { version = "*", features = ["mman"] }
cortex-m = "*"
tokio = { version = "*", features = ["full"] }
clap = { version = "*", features = ["derive"] }
env_logger = "*"
log = "*"
serde = { version = "*", features = ["derive"] }
thiserror = "*"
