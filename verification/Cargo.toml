[package]
name = "webhook_rs"
version = "0.1.0"
edition = "2021"
publish = false

[dependencies]
constant_time_eq = "*"
rand = "0.8"
actix-web = "*"
tokio = { version = "*", features = ["macros", "rt-multi-thread", "sync"] }
serde = { version = "*", features = ["derive"] }
serde_json = "*"
sqlx = { version = "*", default-features = false, features = ["postgres", "runtime-tokio", "chrono", "uuid", "macros"] }
reqwest = { version = "*", default-features = false, features = ["json"] }
futures = "*"
async-trait = "*"
uuid = { version = "*", features = ["v4", "serde"] }
chrono = { version = "*", features = ["serde"] }
rust-argon2 = "*"
dotenvy = "*"
