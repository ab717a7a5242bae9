[package]
name = "nojs_chat"
version = "0.1.0"
edition = "2021"
publish = false

[dependencies]
rusqlite = { version = "=0.40.2", features = ["bundled"] }
actix-web = "=4.15.0"
clap = { version = "=4.6.7", features = ["derive"] }
getrandom = "*"
russh = "=0.64.1"
serde = { version = "=1.0.229", features = ["derive"] }
serde_yaml = "=0.9.34"
tokio = { version = "=1.53.2", features = ["rt-multi-thread", "macros", "sync", "time"] }
