[package]
name = "bombuscv-rs"
version = "0.3.0"
edition = "2021"
publish = false

[dependencies]
atty = "0.2"
chrono = "0.4"
clap = { version = "3.2", features = ["derive"] }
directories = "4.0"
opencv = "0.66"
serde = { version = "1.0", features = ["derive"] }
signal-hook = "0.3"
termcolor = "1.1"
toml = "0.5"
