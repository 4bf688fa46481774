[package]
name = "easyinit"
version = "0.1.0"
edition = "2021"
publish = false

[dependencies]
backtrace = "=0.3.76"
log = "=0.4.34"
nix = { version = "=0.29.0", features = ["mount", "signal", "reboot"] }
