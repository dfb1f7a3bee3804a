[package]
name = "ldap_session"
version = "0.1.0"
edition = "2021"
publish = false

[dependencies]
actix-rt = "2"
actix-server = "2"
actix-service = "2"
anyhow = "1"
futures-util = { version = "0.3", features = ["sink"] }
log = "0.4"
tokio = { version = "1", features = ["net", "rt", "io-util", "macros"] }
tokio-util = { version = "0.7", features = ["codec"] }
