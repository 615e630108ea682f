[package]
name = "embassy-neorv32"
version = "0.1.0"
edition = "2021"
publish = false

[dependencies]
critical-section = { version = "=1.2.0", features = ["restore-state-u8"] }
embassy-executor = "=0.10.0"
embassy-hal-internal = "=0.5.0"
embassy-sync = "=0.8.0"
embassy-time-driver = "=0.2.2"
embassy-time-queue-utils = { version = "=0.3.2", features = ["generic-queue-8"] }
embedded-hal = "=1.0.0"
embedded-hal-async = "=1.0.0"
embedded-io = "=0.7.1"
embedded-io-async = "=0.7.0"
riscv = "=0.16.1"
riscv-rt = "=0.18.0"
