[package]
name = "hm_discord_bot"
version = "0.1.0"
edition = "2021"
publish = false

[dependencies]
futures = "0.3"
hex = "0.4"
itertools = "0.12"
poise = "0.6"
redis = { version = "0.23", features = ["tokio-comp"] }
rolling-file = "0.2"
sha1 = "0.10"
sqlx = { version = "0.7", default-features = false, features = ["mysql", "time", "runtime-tokio", "migrate"] }
time = "0.3"
tokio = { version = "1", features = ["macros", "rt-multi-thread"] }
tracing = "0.1"
tracing-appender = "0.2"
tracing-subscriber = "0.3"
