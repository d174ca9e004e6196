[package]
name = "weather_view"
version = "0.1.0"
edition = "2021"
publish = false

[dependencies]
chrono = "*"
fastly = "*"
serde = { version = "*", features = ["derive"] }
tinytemplate = "*"
