[package]
name = "three_body"
version = "0.1.0"
edition = "2021"
publish = false

[dependencies]
plotters = "=0.3.7"
const_soft_float = "=0.1.4"
