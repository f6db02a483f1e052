[package]
name = "entrance"
version = "0.3.0"
edition = "2021"
publish = false

[dependencies]
thiserror = "1"
syn = "1"
quote = "1"
proc-macro2 = "1"
