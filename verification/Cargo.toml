[package]
name = "zero2prod"
version = "0.1.0"
edition = "2021"
publish = false

[dependencies]
validator = "0.20"
uuid = { version = "1", features = ["v4"] }
actix-web = { version = "4", default-features = false, features = ["macros", "cookies"] }
actix-files = "0.6"
actix-session = { version = "0.10", features = ["redis-session"] }
actix-web-flash-messages = { version = "0.5", features = ["cookies"] }
anyhow = "1"
config = { version = "0.15", default-features = false, features = ["yaml"] }
dotenvy = "0.15"
leptos = { version = "0.8", default-features = false, features = ["ssr"] }
serde = { version = "1", features = ["derive"] }
serde_json = "1"
serde_with = "3"
sqlx = { version = "0.8", default-features = false, features = ["runtime-tokio", "postgres", "uuid"] }
thiserror = "2"
tokio = { version = "1", features = ["macros", "rt-multi-thread"] }
tracing = "0.1"
tracing-actix-web = "0.7"

[dev-dependencies]
fake = "4"
