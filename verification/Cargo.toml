[package]
name = "ffi_helpers"
version = "0.3.0"
edition = "2021"
publish = false

[dependencies]
anyhow = "1"
failure = "0.1"
libc = "0.2"
thiserror = "1"
