[package]
name = "uchat_core"
version = "0.1.0"
edition = "2021"
publish = false

[dependencies]
argon2 = "0.5"
password-hash = "0.5"
p256 = "0.13"
base64 = "0.21"
rand = "0.8"
chrono = { version = "0.4", features = ["serde"] }
uuid = { version = "1", features = ["serde", "v4"] }
indexmap = "1.9"
serde = { version = "1", features = ["derive"] }
serde_json = "1"
axum = "0.6"
hyper = "0.14"
tracing = "0.1"
dioxus = "0.3"
dioxus-router = "0.3"
fermi = "0.3"
nutype = "0.3"
