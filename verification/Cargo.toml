[package]
name = "nesemu"
version = "0.1.0"
edition = "2021"
publish = false

[dependencies]
anyhow = "1"
cpal = "=0.15.3"
smol = "2"
fastapprox = "0.3"
native-dialog = "=0.7.0"
dyn-clone = "1"
