[package]
name = "drop_reverse_proxy"
version = "0.1.0"
edition = "2021"
publish = false

[dependencies]
regex = "1"
uuid = { version = "1", features = ["v4", "serde"] }
chrono = { version = "0.4", features = ["serde"] }
serde = { version = "1", features = ["derive"] }
toml = "0.8"
figment = { version = "0.10", features = ["toml"] }
flate2 = "1"
tar = "0.4"
async-trait = "0.1"
tokio = { version = "1", features = ["macros", "rt-multi-thread", "net"] }
axum = "0.8"
reqwest = { version = "0.12", default-features = false }
sqlx = { version = "0.8", default-features = false, features = ["postgres", "runtime-tokio", "chrono", "uuid", "migrate"] }
