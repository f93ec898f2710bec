[package]
name = "upgrade"
version = "0.1.0"
edition = "2021"
publish = false

[dependencies]
futures-util = "*"
http = "*"
pin-project-lite = "*"
tower = "*"
