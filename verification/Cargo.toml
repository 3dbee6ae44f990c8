[package]
name = "css_selectors"
version = "0.1.0"
edition = "2021"
publish = false

[dependencies]
cssparser = "=0.37.0"
parcel_selectors = "=0.28.3"
clap = { version = "=4.6.7", features = ["derive"] }
serde = { version = "=1.0.229", features = ["derive"] }
serde_json = "=1.0.151"
atty = "=0.2.14"
pathdiff = "=0.2.3"
