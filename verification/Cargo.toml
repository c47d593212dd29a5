[package]
name = "chirpstack"
version = "0.1.0"
edition = "2021"
publish = false

[dependencies]
handlebars = "*"
chrono = { version = "*", features = ["serde"] }
serde = { version = "*", features = ["derive"] }
serde_json = "*"
uuid = { version = "*", features = ["serde", "v4"] }
tokio = { version = "*", features = ["sync", "rt", "macros", "time"] }
rand = "*"
anyhow = "*"
tracing = "*"
async-trait = "*"
prost = "*"
pulsar = { version = "*", default-features = false, features = ["tokio-runtime"] }
paho-mqtt = { version = "*", default-features = false }
