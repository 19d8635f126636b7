[package]
name = "gvars"
version = "0.1.0"
edition = "2021"
publish = false

[dependencies]
cfg-if = "1"
lazy_static = "1"
linkme = "*"
ron = "*"
serde = "1"
