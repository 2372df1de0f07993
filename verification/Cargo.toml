[package]
name = "ocelotter"
version = "0.1.0"
edition = "2021"
publish = false

[dependencies]
structopt = "0.3"
zip = { version = "0.6", default-features = false, features = ["deflate"] }
