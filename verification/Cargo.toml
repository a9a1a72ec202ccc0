[package]
name = "ico_project"
version = "0.1.0"
edition = "2021"
publish = false

[dependencies]
anchor-lang = { version = "0.31.1", features = ["init-if-needed"] }
anchor-spl = { version = "0.31.1", default-features = false, features = ["token"] }
spl-token = { version = "7", features = ["no-entrypoint"] }
