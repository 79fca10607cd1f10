[package]
name = "mrt_cpu"
version = "0.1.0"
edition = "2021"

[dependencies]
ctrlc = "3"
