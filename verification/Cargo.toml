[package]
name = "monocle"
version = "0.1.0"
edition = "2021"
publish = false

[dependencies]
memmap = "0.7"
byteorder = "*"
serde = "*"
serde_derive = "*"
serde_cbor = "*"
drm = "*"
