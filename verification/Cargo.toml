[package]
name = "script_platform"
version = "0.1.0"
edition = "2021"
publish = false

[dependencies]
atty = "0.2"
dirs-next = "2"
once_cell = "1"
tempfile = "3"
