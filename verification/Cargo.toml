[package]
name = "prohelion_can"
version = "0.1.0"
edition = "2021"
publish = false

[dependencies]
bitflags = "1.3"
bxcan = "0.7"
num-complex = { version = "0.4", default-features = false }
socketcan = "1.7"
