[package]
name = "uuid_timestamp"
version = "0.1.0"
edition = "2021"
publish = false

[dependencies]
atomic = "0.5"
rand = "=0.8.8"
