[package]
name = "bfres"
version = "0.1.0"
edition = "2021"
publish = false

[dependencies]
png = "=0.17.16"
bcndecode = "=0.2.0"
half = "=2.7.1"
