[package]
name = "golob_plugin"
version = "0.1.0"
edition = "2021"
publish = false

[dependencies]
after-effects = "*"
after-effects-sys = "*"
bincode = "1.3"
dashmap = "*"
env_logger = "*"
fastrand = "2"
log = "0.4"
