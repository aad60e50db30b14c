[package]
name = "keycloak_jwt"
version = "0.1.0"
edition = "2021"
publish = false

[dependencies]
base64 = "0.21"
envy = "0.4"
futures-locks = "0.7"
jsonwebtoken = "8"
log = "0.4"
reqwest = { version = "0.11", default-features = false, features = ["json"] }
serde = { version = "1", features = ["derive"] }
serde_json = "1"
thiserror = "1"
