[package]
name = "ccp_bbr"
version = "0.2.1"
edition = "2021"
publish = false

[dependencies]
portus = "*"
clap = "2"
tracing = "0.1"
tracing-subscriber = "*"
