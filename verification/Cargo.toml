[package]
name = "hourly_fortune"
version = "0.1.0"
edition = "2021"
publish = false

[dependencies]
serenity = "=0.12.5"
poise = "=0.6.2"
bonsaidb = { version = "=0.5.0", features = ["local"] }
chrono = "=0.4.45"
tokio = { version = "=1.54.1", features = ["macros", "rt-multi-thread", "time", "signal"] }
tracing = "=0.1.44"
tracing-subscriber = "=0.3.23"
dotenv = "=0.15.0"
serde = { version = "=1.0.229", features = ["derive"] }
syn = { version = "=2.0.119", default-features = false, features = ["parsing"] }
