[package]
name = "glean_core"
version = "0.1.0"
edition = "2021"
publish = false

[dependencies]
once_cell = "1"
log = "0.4"
