[package]
name = "pmctl"
version = "0.1.0"
edition = "2021"
publish = false

[dependencies]
bcrypt = "*"
postgres = "*"
clap = { version = "*", features = ["derive"] }
