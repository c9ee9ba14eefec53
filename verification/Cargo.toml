[package]
name = "link_archive"
version = "0.1.0"
edition = "2021"
publish = false

[dependencies]
rust-argon2 = "=0.8.3"
rand = "=0.8.8"
jsonwebtoken = "=7.2.0"
cookie = "=0.17.0"
serde = { version = "=1.0.229", features = ["derive"] }
serde_json = "=1.0.154"
serde_urlencoded = "=0.7.1"
url = "=2.5.8"
base64 = "=0.13.1"
time = { version = "=0.3.55", features = ["macros", "formatting", "parsing"] }
tokio = { version = "=1.54.1", features = ["rt-multi-thread", "macros", "sync", "time"] }
hyper = { version = "=0.14.32", features = ["server", "http1", "tcp"] }
http = "=0.2.12"
rusqlite = { version = "=0.25.4", features = ["bundled"] }
handlebars = "=4.5.0"
plumb = "=0.2.0"
http-mux = { version = "=0.1.1", features = ["hyper"] }
quick_from = "=0.2.0"
