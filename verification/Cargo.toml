[package]
name = "runtime_bridge"
version = "0.1.0"
edition = "2021"
publish = false

[dependencies]
actix-web = "*"
hirofa_utils = "*"
lazy_static = "*"
log = "*"
quickjs_runtime = "*"
