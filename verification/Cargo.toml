[package]
name = "wl_copy"
version = "0.1.0"
edition = "2021"
publish = false

[dependencies]
env_logger = "=0.11.11"
log = "=0.4.34"
nix = { version = "=0.31.3", features = ["process"] }
structopt = "=0.3.26"
tempfile = "=3.27.0"
