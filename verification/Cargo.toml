[package]
name = "uio"
version = "0.3.0"
edition = "2021"
publish = false

[dependencies]
fs2 = "0.4"
libc = "0.2"
nix = { version = "0.26", default-features = false, features = ["mman"] }
