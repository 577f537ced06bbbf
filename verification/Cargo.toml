[package]
name = "slack_client"
version = "0.1.0"
edition = "2021"
publish = false

[dependencies]
anyhow = "=1.0.104"
arboard = { version = "=3.7.0", default-features = false }
clap = { version = "=4.6.7", features = ["derive", "env"] }
comrak = { version = "=0.55.0", default-features = false }
jiff = "=0.1.29"
regex = "=1.13.1"
reqwest = { version = "=0.12.28", default-features = false, features = ["rustls-tls"] }
serde = { version = "=1.0.229", features = ["derive"] }
serde_json = "=1.0.154"
serde_qs = "=0.13.0"
strum = { version = "=0.26.3", features = ["derive"] }
strum_macros = "=0.26.3"
tera = { version = "=1.20.1", default-features = false }
tokio = { version = "=1.54.1", features = ["macros", "rt-multi-thread", "fs"] }
url = "=2.5.8"
