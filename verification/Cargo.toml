[package]
name = "chatwork_post"
version = "0.1.0"
edition = "2021"
publish = false

[dependencies]
hyper = "0.12"
reqwest = "0.9"
serde = "1"
serde_derive = "1"
serde_json = "1"
url = "1"
