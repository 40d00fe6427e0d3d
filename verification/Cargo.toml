[package]
name = "rt_worker"
version = "0.1.0"
edition = "2021"
publish = false

[dependencies]
getopts = "*"
lv2-core = "*"
lv2-worker = "*"
urid = "*"
