[package]
name = "trading_game"
version = "0.1.0"
edition = "2021"
publish = false

[dependencies]
chrono = "0.4"
rand = "0.9"
serde = { version = "1", features = ["derive"] }
bincode = { version = "2", features = ["serde"] }
itertools = "0.14"
strum = "0.27"
strum_macros = "0.27"
