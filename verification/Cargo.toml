[package]
name = "build_cleaner"
version = "0.4.0"
edition = "2021"
publish = false

[dependencies]
bytesize = "=1.3.3"
chrono = "=0.4.45"
dirs = "=5.0.1"
anyhow = "=1.0.104"
clap = { version = "=4.6.7", features = ["derive"] }
colored = "=2.2.0"
dialoguer = "=0.11.0"
indicatif = "=0.17.11"
walkdir = "=2.5.0"
rayon = "=1.12.0"
tokio = { version = "=1.54.1", features = ["full"] }
axum = "=0.7.9"
tower-http = { version = "=0.5.2", features = ["cors"] }
mime_guess = "=2.0.5"
open = "=5.4.5"
rust-embed = { version = "=8.13.0", features = ["interpolate-folder-path"] }
serde = { version = "=1.0.229", features = ["derive"] }
serde_json = "=1.0.154"
futures = "=0.3.34"
async-stream = "=0.3.6"
