[package]
name = "hap_core"
version = "0.1.0"
edition = "2021"
publish = false

[dependencies]
slab = "0.4"
uuid = "1"
serde_json = "1"
futures = "0.3"
hyper = "0.14"
log = "0.4"
