[package]
name = "ace_engine"
version = "0.1.0"
edition = "2021"
publish = false

[dependencies]
toml = "=0.8.23"
serde_json = "=1.0.154"
serde = { version = "=1.0.229", features = ["derive"] }
rand = "=0.8.8"
tokio = { version = "=1.54.1", features = ["rt-multi-thread", "macros", "time", "sync"] }
futures-util = { version = "=0.3.34", features = ["sink"] }
actix = "=0.13.5"
actix-web = "=4.18.1"
actix-web-actors = "=4.3.1"
awc = "=3.11.0"
enigo = "=0.1.3"
