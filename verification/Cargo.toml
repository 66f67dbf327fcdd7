[package]
name = "julia"
version = "0.1.0"
edition = "2021"
publish = false

[dependencies]
palette = { version = "*", features = ["named_from_str"] }
image = { version = "*", default-features = false, features = ["png"] }
structopt = "*"
