[package]
name = "tentacli"
version = "0.1.0"
edition = "2021"
publish = false

[dependencies]
sha-1 = "0.9"
hmac-sha = "=0.6.1"
num-bigint = "=0.4.8"
rand = "=0.8.8"
regex = "=1.13.1"
flate2 = "=1.1.10"
yaml-rust = "=0.4.5"
dotenv = "=0.15.0"
