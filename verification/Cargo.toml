[package]
name = "gclean"
version = "0.1.0"
edition = "2021"
publish = false

[dependencies]
byte-unit = "4"
clap = { version = "4", features = ["derive"] }
log = "0.4"
nix = { version = "*", features = ["user"] }
pretty_env_logger = "0.5"
sys-info = "*"
uname = "*"
