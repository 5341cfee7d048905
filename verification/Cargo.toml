[package]
name = "omicron_api"
version = "0.1.0"
edition = "2021"
publish = false

[dependencies]
bytes = "1"
serde = { version = "1", features = ["derive"] }
serde_json = "1"
futures = "0.3"
actix-web = { version = "4", default-features = false }
http = "0.2"
hyper = { version = "0.14", features = ["client", "http1", "tcp"] }
slog = "2"
