[package]
name = "transaction"
version = "0.2.1"
edition = "2021"
publish = false

[dependencies]
diesel = { version = "1.4", default-features = false }
stm = "*"
