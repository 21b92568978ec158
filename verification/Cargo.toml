[package]
name = "ipc_benchmark"
version = "0.1.0"
edition = "2021"
publish = false

[dependencies]
bincode = "=1.3.3"
hdrhistogram = "=7.6.0"
time = "=0.3.55"
nix = { version = "0.29", features = ["time"] }
