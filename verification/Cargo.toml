[package]
name = "tixyva"
version = "0.1.0"
edition = "2021"
publish = false

[dependencies]
rhai = "1"
fastrand = "1"
crossterm = "0.19"
cpal = "0.11"
anyhow = "1"
