[package]
name = "agritrust"
version = "0.1.0"
edition = "2021"
publish = false

[dependencies]
casper-types = "6"
odra = "2"
casper-contract = "5"
wee_alloc = "0.4"
