[package]
name = "lunner"
version = "0.1.0"
edition = "2021"
publish = false

[dependencies]
anyhow = "*"
serde = { version = "*", features = ["derive"] }
serde_yaml = "*"
structopt = "*"
tokio = { version = "*", features = ["macros", "rt-multi-thread", "process", "sync", "time"] }
tokio-postgres = "*"
