[package]
name = "mango-markets-trading-risk-check"
version = "0.1.0"
edition = "2021"
publish = false

[dependencies]
anchor-lang = "=0.24.2"
