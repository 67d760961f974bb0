[package]
name = "rng_toolbox"
version = "0.1.0"
edition = "2021"
publish = false

[dependencies]
aes-gcm = "0.10"
getrandom = "0.3"
hex = "0.4"
serialport = { version = "4", default-features = false }
nix = "0.29"
