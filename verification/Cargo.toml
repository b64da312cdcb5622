[package]
name = "launcher_core"
version = "0.1.0"
edition = "2021"
publish = false

[dependencies]
lighty-launcher = { version = "=0.8.6", features = ["events"] }
anyhow = "=1.0.104"
dirs = "=7.0.0"
dotenvy = "=0.15.7"
open = "=5.4.5"
parking_lot = "=0.13.0"
async-compat = "=0.2.6"
