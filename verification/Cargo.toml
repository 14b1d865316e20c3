[package]
name = "nu_plugin_mongo"
version = "0.1.0"
edition = "2021"
publish = false

[dependencies]
bson = { version = "=2.15.0", features = ["chrono-0_4"] }
chrono = { version = "=0.4.45", default-features = false, features = ["std"] }
mongodb = { version = "=3.9.1", features = ["sync"] }
nu-plugin = { version = "=0.114.1", default-features = false }
nu-protocol = { version = "=0.114.1", default-features = false }
