[package]
name = "playlist_export"
version = "0.1.0"
edition = "2021"
publish = false

[dependencies]
scraper = "*"
serde = { version = "1", features = ["derive"] }
serde_json = "1"
structopt = "0.3"
google-youtube3 = "1"
hyper = "0.10"
hyper-rustls = "0.6"
yup-oauth2 = "1"
