[package]
name = "arcium_hello_world"
version = "0.1.0"
edition = "2021"
publish = false

[dependencies]
anchor-lang = { version = "=0.32.2", default-features = false, features = ["init-if-needed"] }
anchor-spl = { version = "=0.32.2", default-features = false, features = ["token"] }
arcium-anchor = { version = "=0.9.7", default-features = false }
arcium-client = { version = "=0.9.7", default-features = false }
arcium-macros = "=0.9.7"
