[package]
name = "shawl"
version = "0.1.0"
edition = "2021"
publish = false

[dependencies]
clap = { version = "=3.2.25", features = ["derive"] }
winapi = { version = "=0.3.9", features = ["winbase", "wincon"] }
