[package]
name = "backend"
version = "0.1.0"
edition = "2021"
publish = false

[dependencies]
anyhow = "1"
async-session = "3"
axum = "0.7"
axum-extra = { version = "0.9", features = ["typed-header"] }
console_error_panic_hook = "0.1"
dotenvy = "0.15"
http = "1"
oauth2 = { version = "4.4", default-features = false, features = ["reqwest"] }
reqwest = { version = "0.11", default-features = false, features = ["json"] }
serde = { version = "1", features = ["derive"] }
serde_json = "1"
serde_urlencoded = "0.7"
tokio = { version = "1", features = ["macros", "rt-multi-thread", "net"] }
tracing = "0.1"
tracing-subscriber = { version = "0.3", features = ["env-filter", "json", "time"] }
tracing-web = "0.1"
url = "2"
worker = "0.5"
