[package]
name = "oracle-aggregator"
version = "1.0.0"
edition = "2021"
publish = false

[dependencies]
soroban-sdk = "=21.7.7"
sep-40-oracle = "=1.1.0"
