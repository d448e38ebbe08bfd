[package]
name = "weather_station"
version = "0.1.0"
edition = "2021"
publish = false

[dependencies]
anyhow = "*"
embedded-graphics = "*"
serde = { version = "*", features = ["derive"] }
serde_json = "*"
