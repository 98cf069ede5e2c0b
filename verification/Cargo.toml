[package]
name = "lightning_client"
version = "0.1.0"
edition = "2021"
publish = false

[dependencies]
hex = "=0.4.3"
chrono = "=0.4.45"
argon2 = "=0.5.3"
toml_edit = "=0.22.27"
serde = { version = "=1.0.229", features = ["derive"] }
serde_json = "=1.0.154"
anyhow = "=1.0.104"
async-trait = "=0.1.92"
reqwest = { version = "=0.12.28", default-features = false, features = ["json", "default-tls", "rustls-tls"] }
actix-web = { version = "=4.18.1", default-features = false, features = ["macros", "cookies", "secure-cookies"] }
actix-session = { version = "=0.10.1", features = ["cookie-session"] }
config = { version = "=0.14.1", default-features = false, features = ["toml"] }
dialoguer = "=0.11.0"
lnd_grpc_rust = "=2.16.0"
