[package]
name = "passthru_driver"
version = "0.1.0"
edition = "2021"
publish = false

[dependencies]
bitflags = "=1.3.2"
byteorder = "=1.5.0"
lazy_static = "=1.5.1"
libc = "=0.2.191"
serde = { version = "=1.0.229", features = ["derive"] }
serde_json = "=1.0.154"
serialport = { version = "=4.10.1", default-features = false }
shellexpand = "=2.1.2"
winreg = "=0.10.1"
