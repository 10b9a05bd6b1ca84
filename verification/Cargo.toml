[package]
name = "ngx_async"
version = "0.1.0"
edition = "2021"
publish = false

[dependencies]
async-task = "4.7"
crossbeam-channel = "0.5"
