[package]
name = "ffi_log_bridge"
version = "0.1.0"
edition = "2021"

[dependencies]
log = "0.4"
