[package]
name = "astgen"
version = "0.1.0"
edition = "2021"
publish = false

[dependencies]
proc-macro2 = "1"
prettyplease = "0.2"
syn = { version = "2", features = ["full"] }
