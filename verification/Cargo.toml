[package]
name = "image_convert"
version = "0.1.0"
edition = "2021"
publish = false

[dependencies]
actix-multipart = "0.7"
actix-web = { version = "4", default-features = false, features = ["macros"] }
anyhow = "1"
mime = "0.3"
serde = { version = "1", features = ["derive"] }
tempfile = "3"
tracing = "0.1"
tracing-subscriber = "0.3"
