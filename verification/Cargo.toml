[package]
name = "typed_binder"
version = "0.1.0"
edition = "2021"
publish = false

[dependencies]
sqlx = { version = "0.7", default-features = false, features = ["sqlite", "runtime-tokio"] }

[dev-dependencies]
tokio = { version = "1", features = ["rt"] }
