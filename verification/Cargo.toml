[package]
name = "surreal_typed"
version = "0.1.0"
edition = "2021"
publish = false

[dependencies]
surrealdb = { version = "=1.0.0-beta.8", default-features = false, features = ["kv-mem"] }
bigdecimal = { version = "=0.3.1", features = ["serde"] }
chrono = { version = "=0.4.45", features = ["serde"] }
uuid = { version = "=1.29.0", features = ["serde"] }
thiserror = "=1.0.69"
serde = { version = "=1.0.229", features = ["derive"] }

[dev-dependencies]
futures = "=0.3.34"
