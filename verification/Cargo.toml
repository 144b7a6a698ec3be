[package]
name = "ckb_node_monitor"
version = "0.1.0"
edition = "2021"
publish = false

[dependencies]
chrono = "*"
rand = "*"
ckb-jsonrpc-types = "*"
queue = "*"
