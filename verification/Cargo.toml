[package]
name = "smwc2wav"
version = "0.1.0"
edition = "2021"
publish = false

[dependencies]
audiotags = "*"
chrono = "*"
clap = { version = "*", features = ["derive"] }
indicatif = "*"
inquire = "*"
regex = "*"
reqwest = { version = "*", default-features = false, features = ["blocking", "json"] }
serde = { version = "*", features = ["derive"] }
serde_json = "*"
which = "*"
zip = { version = "*", default-features = false, features = ["deflate"] }
