[package]
name = "sqlx_sqlhelper"
version = "0.1.0"
edition = "2021"
publish = false

[dependencies]
Inflector = { version = "0.11", default-features = false }
proc-macro2 = "1"
quote = "1"
syn = { version = "1", features = ["full"] }
