[package]
name = "zenohex"
version = "0.1.0"
edition = "2021"
publish = false

[dependencies]
zenoh = { version = "=1.10.1", default-features = false, features = ["unstable", "internal"] }
log = "=0.4.34"
rustler = "=0.38.0"
