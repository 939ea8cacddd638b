[package]
name = "game_auth"
version = "0.1.0"
edition = "2021"
publish = false

[dependencies]
actix-web = { version = "4", default-features = false, features = ["macros"] }
actix-web-httpauth = "0.8"
chrono = "0.4"
config = { version = "0.13", default-features = false }
deadpool-postgres = { version = "0.10", features = ["serde"] }
derive_more = "0.99"
jsonwebtoken = "8"
lazy_static = "1"
password-hash = { version = "0.5", features = ["rand_core"] }
postgres-types = { version = "0.2", features = ["with-serde_json-1", "with-uuid-1"] }
rand = "0.8"
rand_core = { version = "0.6", features = ["getrandom"] }
regex = "1"
rust-argon2 = "1"
serde = { version = "1", features = ["derive"] }
serde_json = { version = "1", features = ["preserve_order"] }
tokio = { version = "1", features = ["rt", "macros"] }
tokio-pg-mapper = "0.2"
tokio-pg-mapper-derive = "0.2"
tokio-postgres = { version = "0.7", features = ["with-serde_json-1", "with-uuid-1"] }
toml = "0.5"
uuid = { version = "1", features = ["v4", "serde"] }
