[package]
name = "verbleiber"
version = "0.1.0"
edition = "2021"
publish = false

[dependencies]
anyhow = "*"
clap = { version = "*", features = ["derive"] }
ctrlc = "*"
evdev = "*"
flume = "*"
log = "*"
nanorand = "*"
rodio = "*"
serde = { version = "*", features = ["derive"] }
simple_logger = "*"
toml = "*"
ureq = { version = "*", features = ["json"] }
