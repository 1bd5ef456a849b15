[package]
name = "tmq"
version = "0.1.0"
edition = "2021"
publish = false

[dependencies]
zmq = "=0.10.0"
zmq-sys = "=0.12.0"
futures = "=0.3.34"
