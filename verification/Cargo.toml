[package]
name = "iot_edge"
version = "0.1.0"
edition = "2021"
publish = false

[dependencies]
chrono = { version = "0.4", default-features = false, features = ["clock", "std"] }
opentelemetry = "*"
paho-mqtt = { version = "*", default-features = false, features = ["bundled"] }
prost = { version = "*", default-features = false, features = ["std"] }
thiserror = "1"
tracing = "0.1"
tracing-opentelemetry = "*"
uuid = { version = "1", features = ["v7"] }
