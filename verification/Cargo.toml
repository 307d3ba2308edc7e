[package]
name = "henflow"
version = "0.1.0"
edition = "2021"
publish = false

[dependencies]
anyhow = "=1.0.104"
# indicatif asks for console without its default features and cannot be
# built so; naming console here, with them, gives indicatif what it uses.
console = "=0.16.6"
hex = "=0.4.3"
indicatif = "=0.16.2"
reqwest = { version = "=0.11.27", features = ["json"] }
serde = { version = "=1.0.229", features = ["derive"] }
serde_json = "=1.0.154"
structopt = "=0.3.26"
strum = "=0.24.1"
strum_macros = "=0.24.3"
tokio = { version = "=1.54.1", features = ["full"] }
tracing = "=0.1.44"
tracing-subscriber = "=0.3.23"
