[package]
name = "stm_common"
version = "0.1.0"
edition = "2021"
publish = false

[dependencies]
konst = "0.4"
cortex-m = "0.7"
