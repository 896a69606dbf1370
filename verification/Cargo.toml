[package]
name = "fred"
version = "0.1.0"
edition = "2021"
publish = false

[dependencies]
confy = "0.4"
crossterm = "0.22"
serde = { version = "1", features = ["derive"] }
