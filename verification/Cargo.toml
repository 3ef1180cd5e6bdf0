[package]
name = "idola"
version = "0.1.0"
edition = "2021"
publish = false

[dependencies]
byteorder = "1"
crc = "1"
rand = "0.8"
encoding = "0.2"
log = "0.4"
toml = "0.5"
