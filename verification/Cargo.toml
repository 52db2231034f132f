[package]
name = "icmpmolester"
version = "0.1.0"
edition = "2021"
publish = false

[dependencies]
anyhow = "1"
clap = { version = "4", features = ["derive"] }
lettre = "0.11"
regex = "1"
serde = { version = "1", features = ["derive"] }
tokio = { version = "1", features = ["macros", "process", "rt-multi-thread"] }
toml = "0.8"
ureq = { version = "2", features = ["json"] }
