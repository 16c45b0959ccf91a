[package]
name = "wups_macros"
version = "0.1.0"
edition = "2021"
publish = false

[dependencies]
chrono = "0.4"
syn = { version = "2", features = ["full"] }
quote = "1"
proc-macro2 = "1"
