[package]
name = "iris"
version = "0.1.0"
edition = "2021"
publish = false

[dependencies]
actix-web = { version = "=4.15.0", default-features = false, features = ["macros"] }
actix-multipart = "=0.7.2"
log = "0.4"
reqwest = { version = "=0.12.28", default-features = false, features = ["json", "multipart", "stream"] }
serde = { version = "1", features = ["derive"] }
serde_json = "1"
tokio = { version = "1", default-features = false, features = ["rt"] }
toml = "=0.8.23"
utoipa = "=5.5.0"
