[package]
name = "timerfd_poll"
version = "0.1.0"
edition = "2021"
publish = false

[dependencies]
futures = "0.1"
timerfd = "1"
mio = "0.6"
tokio-reactor = "0.1"
