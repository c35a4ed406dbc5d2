[package]
name = "docrs"
version = "0.1.0"
edition = "2021"
publish = false

[dependencies]
anyhow = "*"
axum = "*"
clap = { version = "*", features = ["derive"] }
colored = "*"
handlebars = "*"
hotwatch = "*"
pulldown-cmark = "*"
serde = { version = "*", features = ["derive"] }
tokio = { version = "*", features = ["full"] }
tokio-stream = { version = "*", features = ["sync"] }
toml = "*"
tower = { version = "*", features = ["util"] }
tower-http = { version = "*", features = ["fs"] }
walkdir = "*"
webbrowser = "*"
