[package]
name = "ota-mqtt"
version = "0.1.0"
edition = "2021"
publish = false

[dependencies]
defmt = "*"
heapless = "*"
itoa = "*"
minimq = "*"
serde = { version = "1", default-features = false, features = ["derive"] }
serde-json-core = "*"
