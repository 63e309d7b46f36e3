[package]
name = "tpsecore"
version = "0.1.0"
edition = "2021"
publish = false

[dependencies]
regex = "1"
globset = "0.4"
zip = { version = "2", default-features = false, features = ["deflate"] }
mime_guess = "2"
arrayvec = "0.7"
serde = { version = "1", features = ["derive"] }
serde_json = "1"
thiserror = "1"
