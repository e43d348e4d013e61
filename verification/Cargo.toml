[package]
name = "neko_oidc"
version = "0.1.0"
edition = "2021"
publish = false

[dependencies]
rand = "0.9"
argon2 = "0.5"
chrono = "0.4"
uuid = { version = "1", features = ["v4"] }
sqlx = { version = "0.8", default-features = false, features = ["runtime-tokio", "postgres", "chrono", "uuid"] }
tokio = { version = "1", features = ["macros", "rt-multi-thread"] }
