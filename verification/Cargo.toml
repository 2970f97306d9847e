[package]
name = "primegen"
version = "0.1.0"
edition = "2021"
publish = false

[dependencies]
num-bigint = { version = "0.4", features = ["rand"] }
num-traits = "0.2"
num-prime = "0.4"
num_cpus = "1"
rand = "0.8"
rayon = "1"
