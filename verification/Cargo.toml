[package]
name = "osm_extractor"
version = "0.1.0"
edition = "2021"
publish = false

[dependencies]
osmpbf = "*"
serde_json = "*"
clap = { version = "*", features = ["derive"] }
tokio = { version = "*", features = ["rt-multi-thread", "macros"] }
deadpool-postgres = "*"
tokio-postgres = "*"
