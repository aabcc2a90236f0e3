[package]
name = "blog_api"
version = "0.1.0"
edition = "2021"
publish = false

[dependencies]
axum = { version = "=0.8.9", features = ["multipart"] }
chrono = { version = "=0.4.45", features = ["serde"] }
dotenv = "=0.15.0"
fast_image_resize = { version = "=5.5.0", features = ["image"] }
headers = "=0.4.2"
image = { version = "=0.25.10", default-features = false, features = ["bmp", "gif", "ico", "jpeg", "png", "pnm", "qoi", "tga", "tiff", "webp"] }
jsonwebtoken = "9"
lazy_static = "=1.5.1"
sea-orm = { version = "=1.1.20", default-features = false, features = ["macros", "with-json", "with-chrono", "with-uuid", "sqlx-postgres", "runtime-tokio-rustls"] }
sea-query = "=0.32.7"
serde = { version = "=1.0.229", features = ["derive"] }
serde_json = "=1.0.154"
tokio = { version = "=1.54.1", features = ["full"] }
tower-http = { version = "=0.6.11", features = ["cors"] }
uuid = { version = "=1.29.1", features = ["v4", "serde"] }
