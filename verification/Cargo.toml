[package]
name = "borer"
version = "0.1.0"
edition = "2021"
publish = false

[dependencies]
anyhow = "*"
axum = { version = "*", features = ["ws"] }
bytes = "*"
chrono = { version = "*", features = ["serde"] }
clap = { version = "*", features = ["derive"] }
config = { version = "*", default-features = false }
dotenv = "*"
futures = "*"
hex = "*"
rand = "*"
reqwest = { version = "*", default-features = false }
serde = { version = "*", features = ["derive"] }
serde_json = "*"
sqlx = { version = "*", default-features = false, features = ["postgres", "runtime-tokio", "uuid", "chrono", "derive"] }
thiserror = "*"
tokio = { version = "*", features = ["full"] }
tokio-tungstenite = "*"
toml = "*"
uuid = { version = "*", features = ["v4"] }
