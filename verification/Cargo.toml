[package]
name = "fault_hardening"
version = "0.1.0"
edition = "2021"
publish = false

[dependencies]
aes = "0.8"
cortex-m = "0.7"
cortex-m-semihosting = "0.5"
proc-macro2 = "1"
quote = "1"
syn = { version = "2", features = ["full"] }
unroll = "0.1"
