[package]
name = "display_switch"
version = "0.1.0"
edition = "2021"
publish = false

[dependencies]
config = "0.10"
ddc-hi = { version = "0.4", default-features = false }
dirs = "2.0"
env_logger = "0.7"
failure = "0.1"
libc = "0.2"
log = "0.4"
log-panics = "2.0"
serde = { version = "1.0", features = ["derive"] }
udev = "0.4"
