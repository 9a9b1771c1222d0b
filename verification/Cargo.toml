[package]
name = "sni_prob"
version = "0.1.0"
edition = "2021"
publish = false

[dependencies]
rustls = { version = "0.23", default-features = false, features = ["ring", "std", "tls12", "logging"] }
webpki-roots = "0.26"
clap = { version = "4", features = ["derive"] }
colored = "2"
indicatif = "0.17"
