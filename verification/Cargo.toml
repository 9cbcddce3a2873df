[package]
name = "presence_sync"
version = "0.1.0"
edition = "2021"
publish = false

[dependencies]
chrono = { version = "0.4", default-features = false, features = ["clock"] }
dotenv = "0.15"
hyper = { version = "0.14", features = ["server", "http1", "tcp"] }
serenity = { version = "0.11", default-features = false, features = ["builder", "cache", "client", "gateway", "model", "http", "utils", "rustls_backend"] }
tokio = { version = "1", features = ["macros", "rt-multi-thread", "sync", "time"] }
