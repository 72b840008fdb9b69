[package]
name = "wireguard_core"
version = "0.1.0"
edition = "2021"
publish = false

[dependencies]
byteorder = "1"
crossbeam-channel = "0.5"
libc = "0.2"
log = "0.4"
rand = "0.8"
x25519-dalek = "2"
