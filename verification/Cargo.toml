[package]
name = "erp-example"
version = "0.1.0"
edition = "2021"
publish = false

[dependencies]
rociadb-sdk = "*"
serde = { version = "1", features = ["derive"] }
serde_json = "1"
sha2 = "*"
chrono = "*"
futures = "*"
tokio = { version = "1", features = ["macros", "rt-multi-thread"] }
thiserror = "*"
reqwest = { version = "*", default-features = false }
