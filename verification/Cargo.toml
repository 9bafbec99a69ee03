[package]
name = "music_bot"
version = "0.1.0"
edition = "2021"
publish = false

[dependencies]
dotenv = "=0.15.0"
lavalink-rs = { version = "=0.8.0", features = ["rustls", "serenity"] }
log = "=0.4.34"
serde = { version = "=1.0.229", features = ["derive"] }
serenity = { version = "=0.10.10", features = ["voice"] }
songbird = { version = "=0.1.8", default-features = false, features = ["serenity-rustls", "gateway"] }
sqlx = { version = "=0.5.13", features = ["runtime-tokio-rustls", "postgres"] }
tokio = { version = "=1.54.1", features = ["macros", "rt-multi-thread"] }
toml = "=0.5.11"
