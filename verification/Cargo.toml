[package]
name = "hermes"
version = "0.1.0"
edition = "2021"
publish = false

[dependencies]
sha2 = "0.10"
base64 = "0.22"
chrono = "0.4"
rss = "2"
atom_syndication = "0.12"
quick-xml = "*"
regex = "1"
serde = { version = "1", features = ["derive"] }
serde_json = "1"
jsonwebtoken = "9"
warp = "0.3"
tokio = { version = "1", features = ["full"] }
futures = "0.3"
hyper = { version = "0.14", features = ["full"] }
hyper-tls = "0.5"
diesel = { version = "2", features = ["postgres", "r2d2", "chrono"] }
dotenv = "0.15"
log = "0.4"
pretty_env_logger = "0.5"
lazy_static = "1"
askama = "0.12"
