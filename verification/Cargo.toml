[package]
name = "arctica"
version = "0.1.0"
edition = "2021"
publish = false

[dependencies]
bitcoin = "0.29"
secp256k1 = { version = "0.24", features = ["rand-std"] }
home = "0.5"
bdk = { version = "0.28", default-features = false, features = ["std", "rpc"] }
bitcoincore-rpc = "0.16"
