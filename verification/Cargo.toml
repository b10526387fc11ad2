[package]
name = "mevi"
version = "0.1.0"
edition = "2021"
publish = false

[dependencies]
libc = "0.2"
nix = "0.26"
proc-maps = "0.3"
userfaultfd = "0.5"
