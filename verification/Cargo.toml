[package]
name = "irc_relay"
version = "0.1.0"
edition = "2021"
publish = false

[dependencies]
futures = "0.1"
tokio-core = "0.1"
tokio-io = "0.1"
log = "0.4"
badlog = "*"
