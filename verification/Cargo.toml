[package]
name = "proof_of_hack"
version = "0.1.0"
edition = "2021"
publish = false

[dependencies]
anchor-lang = "*"
sha2 = "0.10"
