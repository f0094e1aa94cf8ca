[package]
name = "avsregistry"
version = "0.1.0"
edition = "2021"
publish = false

[dependencies]
ethers = "2.0"
num-bigint = "0.4"
tracing = "0.1"
