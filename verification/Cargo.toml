[package]
name = "url_shortener"
version = "0.1.0"
edition = "2021"
publish = false

[dependencies]
actix-web = { version = "4", default-features = false, features = ["macros"] }
chrono = "0.4"
rand = "0.8"
rusqlite = "0.31"
serde = { version = "1", features = ["derive"] }
tokio = { version = "1", features = ["rt", "time"] }
