[package]
name = "blockchain_password_manager"
version = "0.1.0"
edition = "2021"
publish = false

[dependencies]
anchor-lang = "0.31"
sha2 = "=0.10.9"
