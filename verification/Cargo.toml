[package]
name = "price_scraper"
version = "0.1.0"
edition = "2021"
publish = false

[dependencies]
axum = "=0.7.9"
dotenv = "=0.15.0"
serde = { version = "=1.0.229", features = ["derive"] }
thirtyfour = "=0.38.1"
tokio = { version = "=1.54.1", features = ["full"] }
