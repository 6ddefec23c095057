[package]
name = "toml_cfg"
version = "0.1.0"
edition = "2021"
publish = false

[dependencies]
toml = "*"
syn = { version = "*", features = ["full"] }
quote = "*"
proc-macro2 = "*"
heck = "*"
