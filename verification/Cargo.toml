[package]
name = "sqlx_binder"
version = "0.1.0"
edition = "2021"
publish = false

[dependencies]
sqlx = { version = "*", default-features = false, features = ["mysql", "runtime-tokio"] }
syn = "2"
