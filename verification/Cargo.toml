[package]
name = "actix_send"
version = "0.1.0"
edition = "2021"
publish = false

[dependencies]
tokio = { version = "1", features = ["sync", "time", "rt", "rt-multi-thread", "macros"] }
async-channel = "1"
futures-util = "0.3"
futures-core = "0.3"
pin-project = "1"
pin-project-lite = "0.2"
async-trait = "0.1"
actix-rt = "2"
actix-web = { version = "4", default-features = false }
actix-http = { version = "3", default-features = false, features = ["ws"] }
actix-codec = "0.5"
bytestring = "1"
