[package]
name = "dam_db"
version = "0.1.0"
edition = "2021"
publish = false

[dependencies]
blake3 = "1"
chrono = "0.4"
rand = "0.9"
serde_json = "1"
sqlx = { version = "0.9", default-features = false, features = ["postgres", "runtime-tokio", "uuid", "chrono", "json", "migrate"] }
thiserror = "2"
uuid = { version = "1", features = ["v4", "v7"] }

[dev-dependencies]
