[package]
name = "bbs_ffi"
version = "0.1.0"
edition = "2021"
publish = false

[dependencies]
bbs = "0.4"
pairing-plus = "0.19"
hkdf = "0.8"
sha2 = "0.8"
rand = "0.7"
ffi-support = "0.4"
serde = "1"
