[package]
name = "portability_mock"
version = "0.1.0"
edition = "2021"
publish = false

[dependencies]
config = "*"
httpmock = { version = "*", features = ["remote"] }
serde = { version = "*", features = ["derive"] }
serde_json = "*"
sqlx = { version = "*", default-features = false, features = ["postgres"] }
tokio = { version = "*", features = ["macros", "rt-multi-thread"] }

[dev-dependencies]
oauth2 = { version = "*", default-features = false }
reqwest = { version = "*", default-features = false, features = ["blocking"] }
