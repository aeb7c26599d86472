[package]
name = "unik"
version = "0.1.0"
edition = "2021"
publish = false

[dependencies]
chrono = "0.4"
libc = "0.2"
mac_address = "1"
md5 = "0.7"
nanorand = "0.7"
sha1 = "0.6"
