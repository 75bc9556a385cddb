[package]
name = "form_intake"
version = "0.1.0"
edition = "2021"
publish = false

[dependencies]
axum = "*"
tokio = { version = "*", features = ["rt-multi-thread", "macros", "net"] }
sqlx = { version = "*", default-features = false, features = ["postgres", "runtime-tokio"] }
serde = { version = "*", features = ["derive"] }
askama = "*"
dotenvy = "*"
