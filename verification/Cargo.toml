[package]
name = "scavenger"
version = "0.1.0"
edition = "2021"
publish = false

[dependencies]
serde_json = "1"
url = "2"
serde = "1"
hyper = "0.12"
futures = "0.1"
tokio-core = "0.1"
chan = "0.1"
libc = "0.2"
log = "0.4"
log4rs = "0.8"
