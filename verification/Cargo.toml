[package]
name = "elorapi"
version = "0.1.0"
edition = "2021"
publish = false

[dependencies]
serde_json = "1"
hex = "0.4"
base64 = "0.13"
chirpstack_api = "3.11.1"
tonic = "*"
prost-types = "*"
tokio = { version = "1", features = ["rt-multi-thread", "sync"] }
paho-mqtt = "*"
chrono = "0.4"
regex = "1"
serde = "1"
serde_derive = "1"
