[package]
name = "vimplugins"
version = "0.1.0"
edition = "2021"
publish = false

[dependencies]
alejandra = "=3.1.0"
chrono = "=0.4.45"
clap = { version = "=4.6.7", features = ["derive", "env"] }
color-eyre = "=0.6.5"
graphql_client = { version = "=0.16.0", features = ["reqwest"] }
reqwest = { version = "=0.12.28", default-features = false, features = ["json"] }
serde = { version = "=1.0.229", features = ["derive"] }
tokio = { version = "=1.53.2", features = ["full"] }
toml = "=1.1.6"
