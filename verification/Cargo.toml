[package]
name = "zero_v"
version = "0.2.0"
edition = "2021"
publish = false

[dependencies]
convert_case = "=0.12.0"
syn = { version = "=1.0.109", features = ["full"] }
proc-macro2 = "=1.0.107"
quote = "1"
