[package]
name = "minidbg"
version = "0.1.0"
edition = "2021"
publish = false

[dependencies]
nix = { version = "*", features = ["ptrace", "process", "personality", "signal"] }
log = "*"
pretty_env_logger = "*"
