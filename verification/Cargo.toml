[package]
name = "evitable"
version = "0.1.0"
edition = "2021"
publish = false

[dependencies]
ident_case = "1"
backtrace = "0.3"
syn = { version = "2", features = ["full", "extra-traits"] }
quote = "1"
proc-macro2 = "1"
