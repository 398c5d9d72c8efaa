[package]
name = "wvdsh"
version = "0.1.0"
edition = "2021"
publish = false

[dependencies]
anyhow = "1"
axoupdater = { version = "0.9", default-features = false, features = ["github_releases"] }
axum = "0.7"
axum-server = { version = "0.7", features = ["tls-rustls-no-provider"] }
chrono = "0.4"
clap = { version = "4", features = ["derive"] }
dialoguer = "0.11"
directories = "5"
futures = "0.3"
indicatif = "0.17"
mime_guess = "=2.0.5"
open = "5"
opendal = { version = "0.50", default-features = false, features = ["services-s3"] }
portable-pty = "0.8"
rcgen = "0.12"
reqwest = { version = "0.12", default-features = false, features = ["json", "rustls-tls"] }
semver = "=1.0.28"
serde = { version = "1", features = ["derive"] }
serde_json = "=1.0.154"
strip-ansi-escapes = "=0.2.1"
tempfile = "3"
tiny_http = "0.12"
tokio = { version = "1", features = ["rt-multi-thread", "macros", "fs", "io-util", "signal", "process", "net"] }
toml = "=0.8.23"
tower = { version = "0.5", features = ["util"] }
tower-http = { version = "0.6", features = ["cors", "fs"] }
url = "=2.5.8"
urlencoding = "=2.1.3"
walkdir = "2"
zip = { version = "2", default-features = false, features = ["deflate"] }
