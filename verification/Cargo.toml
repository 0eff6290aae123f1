[package]
name = "telemt_admin"
version = "0.1.0"
edition = "2021"
publish = false

[dependencies]
anyhow = "=1.0.104"
chrono = "=0.4.45"
hex = "=0.4.3"
rand = "=0.9.5"
serde = { version = "=1.0.229", features = ["derive"] }
takecell = "=0.1.1"
teloxide = { version = "=0.13.0", default-features = false, features = ["macros"] }
toml = "=0.8.23"
toml_edit = "=0.22.27"
tracing = "=0.1.44"
