[package]
name = "rusty_switch"
version = "0.1.0"
edition = "2021"
publish = false

[dependencies]
axum = "*"
chrono = "*"
clokwerk = "*"
lettre = { version = "*", default-features = false, features = ["builder", "smtp-transport", "rustls-tls", "pool"] }
rand = "*"
tokio = { version = "*", features = ["rt-multi-thread", "net", "macros"] }
