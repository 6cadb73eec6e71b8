[package]
name = "coldstart"
version = "0.1.0"
edition = "2021"
publish = false

[dependencies]
actix-web = { version = "4", default-features = false }
lazy_static = "1"
log = "0.4"
