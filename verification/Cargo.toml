[package]
name = "opencuda"
version = "0.1.0"
edition = "2021"
publish = false

[dependencies]
anyhow = "1"
rayon = "1"
ash = "0.37"
