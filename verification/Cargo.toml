[package]
name = "fixcms"
version = "0.1.0"
edition = "2021"
publish = false

[dependencies]
image = { version = "0.25", default-features = false, features = ["png", "jpeg"] }
zune-jpeg = "0.4"

[dev-dependencies]
rand = "0.9"
