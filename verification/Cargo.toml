[package]
name = "bender_config"
version = "1.1.0"
edition = "2021"
publish = false

[dependencies]
blake2 = "*"
hex = "*"
uuid = { version = "*", features = ["v4"] }
rand = "*"
dialoguer = "*"
console = "*"
colored = "*"
docopt = "*"
serde = "*"
serde_derive = "*"
