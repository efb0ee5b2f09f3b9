[package]
name = "arcane_vote"
version = "0.1.0"
edition = "2021"
publish = false

[dependencies]
scrypto = "1"
