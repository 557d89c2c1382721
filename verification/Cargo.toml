[package]
name = "bulk_runner"
version = "0.1.0"
edition = "2021"
publish = false

[dependencies]
tokio = { version = "*", features = ["full"] }
clap = { version = "*", features = ["derive"] }
serde = { version = "*", features = ["derive"] }
serde_json = "*"
thiserror = "*"
futures = "*"
tracing = "*"
tracing-subscriber = { version = "*", features = ["env-filter"] }
anstyle = "*"
chrono = "*"
async-trait = "*"
rayon = "*"
dashmap = { version = "*", features = ["rayon"] }
deadpool-tiberius = "*"
