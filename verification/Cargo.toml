[package]
name = "bargo"
version = "0.2.0"
edition = "2021"
publish = false

[dependencies]
atty = "0.2"
which = "6"
clap = { version = "4", features = ["derive"] }
color-eyre = "0.6"
dotenv = "0.15"
serde = { version = "1", features = ["derive"] }
serde_json = "1"
toml = "0.8"
tracing = "0.1"
tracing-subscriber = { version = "0.3", features = ["env-filter"] }

[dev-dependencies]
tempfile = "3"
