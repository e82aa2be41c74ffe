[package]
name = "mqtt_options"
version = "0.1.0"
edition = "2021"
publish = false

[dependencies]
mqtt3 = "0.1"
rustls = { version = "0.23", default-features = false, features = ["std", "ring"] }
