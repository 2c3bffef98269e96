[package]
name = "edsh"
version = "0.1.0"
edition = "2021"
publish = false

[dependencies]
iroh = "=1.3.0"
rand = "*"
anyhow = "*"
clap = { version = "*", default-features = false, features = ["std", "derive", "help", "usage", "error-context", "suggestions"] }
serde = { version = "*", features = ["derive"] }
tokio = { version = "*", default-features = false, features = ["rt-multi-thread", "macros", "io-util", "io-std", "net", "fs", "time"] }
toml = "*"
tracing = "*"
tracing-subscriber = { version = "*", default-features = false, features = ["fmt"] }
