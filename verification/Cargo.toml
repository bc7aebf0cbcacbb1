[package]
name = "process_execution"
version = "0.1.0"
edition = "2021"
publish = false

[dependencies]
tempfile = "3"
libc = "0.2"
log = "0.4"
