[package]
name = "grow_agent"
version = "0.1.0"
edition = "2021"
publish = false

[dependencies]
anyhow = "=1.0.104"
async-trait = "=0.1.92"
chrono = { version = "=0.4.45", features = ["serde"] }
clap = { version = "=4.6.7", features = ["derive", "env"] }
duration-str = "=0.21.0"
futures = "=0.3.34"
gpio-cdev = "=0.6.0"
log = "=0.4.35"
nix = "=0.31.3"
pyo3 = { version = "=0.22.6", features = ["chrono"] }
rppal = "=0.22.1"
serde = { version = "=1.0.229", features = ["derive"] }
serde_json = "=1.0.154"
sqlx = { version = "=0.8.6", default-features = false, features = ["sqlite", "runtime-tokio", "migrate", "macros"] }
thiserror = "=1.0.69"
tokio = { version = "=1.54.1", features = ["macros", "rt-multi-thread", "signal", "sync", "time", "fs", "io-util"] }
tokio-util = "=0.7.20"
tracing = "=0.1.44"
tracing-subscriber = { version = "=0.3.23", features = ["env-filter"] }
trait-variant = "=0.1.3"

[dev-dependencies]
tempfile = "=3.27.0"
