[package]
name = "frostwatch"
version = "0.1.0"
edition = "2021"
publish = false

[dependencies]
anyhow = "1"
chrono = "0.4"
lettre = "0.11"
thirtyfour = "*"
tokio = { version = "1", features = ["macros", "rt-multi-thread"] }
