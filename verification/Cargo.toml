[package]
name = "rvhwfuzzer"
version = "0.1.0"
edition = "2021"
publish = false

[dependencies]
serde = { version = "1", features = ["derive"] }
toml = "0.8"
indexmap = { version = "2", features = ["serde"] }
fastrand = "2"
rand = "0.8"
softfloat-wrapper = "0.3"
object = "0.36"
