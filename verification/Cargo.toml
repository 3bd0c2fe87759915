[package]
name = "revenuecat_fdw"
version = "0.1.3"
edition = "2021"
publish = false

[dependencies]
serde_json = "1"
