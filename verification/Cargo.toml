[package]
name = "cctalk"
version = "0.1.0"
edition = "2021"
publish = false

[dependencies]
heapless = "0.8"
crc16 = "0.4"
embedded-hal = "1.0"
embedded-hal-nb = "1.0"
nb = "1.1"
thiserror = "1.0"

[dev-dependencies]
embedded-hal-mock = { version = "0.11", default-features = false, features = ["eh1"] }
