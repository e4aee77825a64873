[package]
name = "tracked_counter"
version = "0.1.0"
edition = "2021"
publish = false

[dependencies]
ic-cdk = "0.6.10"
ic-cdk-macros = "0.6.10"
num-bigint = "0.4"
num-traits = "0.2"
serde = "1"
