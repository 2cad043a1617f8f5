[package]
name = "summits"
version = "0.1.0"
edition = "2021"
publish = false

[dependencies]
anyhow = "1"
async-trait = "0.1"
axum = "0.7"
clap = { version = "4", features = ["derive"] }
crossbeam-channel = "0.5"
figment = { version = "0.10", features = ["yaml", "env"] }
futures = "0.3"
google-cloud-storage = "0.15"
image = { version = "=0.24.9", default-features = false, features = ["png"] }
once_cell = "1"
rand = "=0.8.8"
rand_chacha = "=0.3.1"
serde = { version = "1", features = ["derive"] }
sha2 = "=0.10.9"
sqlx = { version = "0.7", default-features = false, features = ["runtime-tokio", "postgres"] }
tokio = { version = "1", features = ["full"] }
tower-http = { version = "0.5", features = ["trace"] }
tracing = "0.1"
tracing-subscriber = { version = "0.3", features = ["json"] }
wasm-bindgen = "0.2"
