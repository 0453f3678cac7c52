[package]
name = "jamfrs"
version = "0.1.0"
edition = "2021"
publish = false

[dependencies]
serde_json = "*"
clap = { version = "*", features = ["derive"] }
reqwest = { version = "*", default-features = false, features = ["rustls-tls"] }
tokio = { version = "*", features = ["rt-multi-thread", "macros", "sync"] }
xmltree = "*"
