[package]
name = "bonding_curve"
version = "0.1.0"
edition = "2021"
publish = false

[dependencies]
anchor-lang = "=0.31.2"
anchor-spl = "=0.31.2"
