[package]
name = "ctl2mimir"
version = "0.1.0"
edition = "2021"
publish = false

[dependencies]
async-trait = "=0.1.92"
async_zmq = "=0.4.0"
chrono = { version = "=0.4.45", default-features = false, features = ["clock", "std", "serde"] }
clap = { version = "=4.6.7", default-features = false, features = ["std", "help", "usage", "env"] }
config = { version = "=0.15.27", default-features = false, features = ["toml"] }
dotenv = "=0.15.0"
futures = "=0.3.34"
juniper = { version = "=0.17.1", features = ["chrono"] }
juniper_graphql_ws = "=0.5.0"
juniper_warp = { version = "=0.9.0", features = ["subscriptions"] }
reqwest = { version = "=0.13.5", default-features = false, features = ["blocking"] }
serde = { version = "=1.0.229", features = ["derive"] }
serde_json = "=1.0.154"
slog = "=2.8.2"
slog-async = "=2.8.0"
slog-term = "=2.9.2"
snafu = "=0.9.2"
sqlx = { version = "=0.9.0", default-features = false, features = ["runtime-tokio", "sqlite"] }
tokio = { version = "=1.54.1", features = ["rt-multi-thread", "macros", "process", "fs", "io-util", "time"] }
url = "=2.5.8"
warp = { version = "=0.4.3", features = ["server", "websocket"] }
