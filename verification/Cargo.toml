[package]
name = "futures_time"
version = "0.1.0"
edition = "2021"
publish = false

[dependencies]
async-io = "*"
futures-core = "*"
pin-project-lite = "*"
