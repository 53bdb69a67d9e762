[package]
name = "wundergraph"
version = "0.1.0"
edition = "2021"
publish = false

[dependencies]
diesel = { version = "1.4", features = ["r2d2"] }
failure = "0.1"
juniper = { version = "0.14", default-features = false }
log = "0.4"
