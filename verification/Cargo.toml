[package]
name = "batchplot"
version = "0.1.0"
edition = "2021"
publish = false

[dependencies]
csv = "1"
plotters = "0.3"
