[package]
name = "mov_converter"
version = "0.1.0"
edition = "2021"
publish = false

[dependencies]
actix-files = "0.6"
actix-multipart = "0.6"
actix-web = { version = "4", default-features = false, features = ["macros"] }
env_logger = "0.10"
futures-util = "0.3"
log = "0.4"
serde = { version = "1", features = ["derive"] }
tera = { version = "1", default-features = false }
uuid = { version = "1", features = ["v4"] }
