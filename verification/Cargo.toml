[package]
name = "manteau"
version = "0.1.0"
edition = "2021"
publish = false

[dependencies]
async-trait = "0.1"
axum = "0.6"
bytesize = "1"
chrono = "0.4"
futures = "0.3"
moka = { version = "0.11", features = ["future"] }
quick-xml = "0.28"
reqwest = { version = "0.11", features = ["json"] }
scraper = "0.16"
serde = { version = "1", features = ["derive"] }
tokio = { version = "1", features = ["full"] }
toml = "0.7"
tower-http = { version = "0.4", features = ["trace"] }
tracing = "0.1"
tracing-subscriber = { version = "0.3", features = ["env-filter"] }
url = "2"
urlencoding = "2"
