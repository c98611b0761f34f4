[package]
name = "pikernel"
version = "0.1.0"
edition = "2021"
publish = false

[dependencies]
tock-registers = "=0.8.1"
cortex-a = "=8.1.1"
spin = "=0.9.9"
palloc = "=0.1.3"
