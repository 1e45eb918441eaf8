[package]
name = "appsignal"
version = "0.1.0"
edition = "2021"
publish = false

[dependencies]
backtrace = "0.3"
libc = "0.2"
rustc-serialize = "0.3"
