[package]
name = "bping"
version = "0.1.0"
edition = "2021"
publish = false

[dependencies]
keshvar = { version = "=0.7.0", features = ["search-iso-short-name", "emojis"] }
celes = "=2.6.0"
tokio-retry = "=0.3.2"
tokio = { version = "=1.54.1", features = ["rt-multi-thread", "macros", "sync", "time"] }
reqwest = { version = "=0.13.5", default-features = false, features = ["json"] }
futures = "=0.3.34"
indicatif = "=0.18.6"
console = "=0.16.6"
bpaf = "=0.9.28"
color-eyre = "=0.6.5"
tracing = "=0.1.44"
tracing-subscriber = { version = "=0.3.23", features = ["env-filter"] }
serde = { version = "=1.0.229", features = ["derive"] }
serde_json = "=1.0.154"
toml = "=1.1.8"
dirs = "=7.0.0"
dialoguer = "*"
validator = "*"
colored = "*"
colorful = "*"
