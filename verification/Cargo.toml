[package]
name = "space_invaders"
version = "0.1.0"
edition = "2021"
publish = false

[dependencies]
dioxus = { version = "0.6", default-features = false, features = ["macro", "html", "hooks", "signals", "launch", "document", "asset"] }
instant = "0.1"
rand = "0.8"
tokio = { version = "1", features = ["time"] }
