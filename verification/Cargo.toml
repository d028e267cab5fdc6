[package]
name = "conduit-json-parser"
version = "0.9.0"
edition = "2021"
publish = false

[dependencies]
conduit = "0.8"
conduit-middleware = "0.8"
serde = "1"
serde_json = "1"

[dev-dependencies]
conduit-test = "0.8"
