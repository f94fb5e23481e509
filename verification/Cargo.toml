[package]
name = "mount_luks"
version = "0.1.0"
edition = "2021"
publish = false

[dependencies]
nix = { version = "*", features = ["user"] }
clap = { version = "*", features = ["derive"] }
dirs = "*"
dotenvy = "*"
rpassword = "*"
owo-colors = "*"
tracing = "*"
tracing-subscriber = "*"
