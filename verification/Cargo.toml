[package]
name = "variant_label"
version = "0.1.0"
edition = "2021"
publish = false

[dependencies]
heck = "0.3"
proc-macro2 = "1"
quote = "1"
syn = "1"
