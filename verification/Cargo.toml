[package]
name = "wand_relay"
version = "0.1.0"
edition = "2021"
publish = false

[dependencies]
anyhow = "1"
clap = { version = "4", features = ["derive"] }
include_dir = "0.7"
lazy-regex = "3"
notify = "6"
rustls = { version = "0.23", default-features = false, features = ["ring", "std"] }
steamlocate = "1"
tungstenite = { version = "0.24", features = ["rustls-tls-webpki-roots"] }
