[package]
name = "tinycolors"
version = "0.1.0"
edition = "2021"

[dependencies]
okhsl = "*"
serde = { version = "1", features = ["derive"] }
