[package]
name = "escrow_swap"
version = "0.1.0"
edition = "2021"
publish = false

[dependencies]
anchor-lang = "=0.32.1"
anchor-spl = "=0.32.1"
