[package]
name = "post_intake"
version = "0.1.0"
edition = "2021"
publish = false

[dependencies]
actix-multipart = "0.6"
actix-web = { version = "4", default-features = false, features = ["macros"] }
chrono = "0.4"
derive_more = "0.99"
futures = "0.3"
sanitize-filename = "*"
serde = { version = "1", features = ["derive"] }
sqlx = { version = "0.7", default-features = false, features = ["runtime-tokio", "postgres", "uuid", "chrono"] }
thiserror = "1"
tracing = "0.1"
uuid = { version = "1", features = ["v4"] }
