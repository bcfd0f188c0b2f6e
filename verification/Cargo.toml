[package]
name = "thespis_remote"
version = "0.1.0"
edition = "2021"
publish = false

[dependencies]
rand = "0.8"
twox-hash = "1"
futures = "0.3"
futures_ringbuf = "*"
