[package]
name = "linch_desktop_core"
version = "0.1.0"
edition = "2021"
publish = false

[dependencies]
sentry = "0.42"
