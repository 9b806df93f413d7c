[package]
name = "openat_secure"
version = "0.1.0"
edition = "2021"
publish = false

[dependencies]
bitflags = "=1.3.2"
libc = "=0.2.191"
openat = "=0.1.21"

[dev-dependencies]
rustix = { version = "=1.1.5", features = ["fs"] }
tempfile = "=3.27.0"
