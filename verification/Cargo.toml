[package]
name = "window"
version = "0.1.0"
edition = "2021"
publish = false

[dependencies]
crossbeam-queue = "0.3"
