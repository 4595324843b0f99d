[package]
name = "brightness_slider"
version = "0.1.0"
edition = "2021"
publish = false

[dependencies]
futures-signals = "*"
fs2 = "*"
dirs = "*"
tokio = { version = "*", features = ["full"] }
async-scoped = { version = "*", features = ["use-tokio"] }
blight = "*"

[dev-dependencies]
serde_json = "*"
