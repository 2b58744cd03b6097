[package]
name = "source_query"
version = "0.1.0"
edition = "2021"
publish = false

[dependencies]
chrono = { version = "0.4", default-features = false, features = ["std"] }
termion = "1.5"
tui = "0.9"
