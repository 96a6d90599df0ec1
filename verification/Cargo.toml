[package]
name = "orbtk"
version = "0.1.0"
edition = "2021"
publish = false

[dependencies]
dces = "=0.1.6"
orbclient = { version = "=0.4.6", default-features = false, features = ["unifont"] }
