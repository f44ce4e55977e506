[package]
name = "nu_plugin_kubectl"
version = "0.1.0"
edition = "2021"
publish = false

[dependencies]
indexmap = { version = "1", features = ["serde-1"] }
nu-errors = "0.44"
nu-plugin = "0.44"
nu-protocol = "0.44"
nu-source = "0.44"
serde = { version = "1", features = ["derive"] }
serde_yaml = "0.8"
