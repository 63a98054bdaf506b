[package]
name = "mintest"
version = "0.1.0"
edition = "2021"
publish = false

[dependencies]
color-backtrace = "*"
cortex-m-semihosting = "*"
linkme = "*"
proc-macro2 = "1"
quote = "1"
semihosting = "*"
syn = { version = "1", features = ["full"] }
