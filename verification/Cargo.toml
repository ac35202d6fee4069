[package]
name = "fui"
version = "0.1.0"
edition = "2021"
publish = false

[dependencies]
clap = { version = "=4.6.7", features = ["string"] }
cursive = "=0.21.1"
serde_json = "=1.0.151"
