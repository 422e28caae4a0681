[package]
name = "botvana_control"
version = "0.1.0"
edition = "2021"
publish = false

[dependencies]
arrayvec = "0.7"
async-codec = "0.4"
async-shutdown = "0.1"
async-std = "1"
async-trait = "0.1"
chrono = "0.4"
futures = "0.3"
glommio = "*"
ring-channel = "*"
thiserror = "1"
tracing = "0.1"
