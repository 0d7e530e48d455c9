[package]
name = "minigames"
version = "0.1.0"
edition = "2021"
publish = false

[dependencies]
anyhow = "1"
chrono = { version = "0.4", default-features = false, features = ["std", "now"] }
image = { version = "0.24", default-features = false, features = ["png"] }
poise = "0.6"
rand = "0.8"
serenity = "0.12"
sqlx = { version = "0.7", default-features = false, features = ["sqlite", "runtime-tokio", "chrono"] }
tokio = { version = "1", features = ["sync", "macros", "rt-multi-thread"] }
