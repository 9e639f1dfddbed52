[package]
name = "tln_mqtt"
version = "0.1.0"
edition = "2021"
publish = false

[dependencies]
regex = "1"
owo-colors = "4"
rumqttc = { version = "*", default-features = false }
serde = { version = "1", features = ["derive"] }
serde_json = "1"
crossbeam-channel = "0.5"
anstream = "*"
tracing = "0.1"
tracing-subscriber = "0.3"
