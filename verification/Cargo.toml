[package]
name = "pasta_create"
version = "0.1.0"
edition = "2021"
publish = false

[dependencies]
actix-web = "4"
base64 = "0.21"
bytesize = "1"
harsh = "*"
linkify = "*"
log = "0.4"
magic-crypt = "*"
rand = "0.8"
serde = { version = "1", features = ["derive"] }
