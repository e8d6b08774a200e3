[package]
name = "bp3d_logger"
version = "0.1.0"
edition = "2021"
publish = false

[dependencies]
time = { version = "=0.3.55", features = ["local-offset"] }
crossbeam-queue = "=0.3.14"
crossbeam-channel = "=0.5.17"
termcolor = "=1.4.1"
log = "=0.4.34"
bp3d-os = { version = "=2.3.3", features = ["time", "dirs"] }
