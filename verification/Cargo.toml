[package]
name = "clap_to_jack"
version = "0.1.0"
edition = "2021"
publish = false

[dependencies]
clack-host = "*"
jack = "*"
clap = { version = "*", features = ["derive"] }
