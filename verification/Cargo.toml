[package]
name = "zellit"
version = "0.1.0"
edition = "2021"
publish = false

[dependencies]
ratatui = "0.30"
crossterm = "0.29"
serde = { version = "1", features = ["derive"] }
