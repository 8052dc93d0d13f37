[package]
name = "rapidquery"
version = "0.1.0"
edition = "2021"
publish = false

[dependencies]
chrono = { version = "0.4", default-features = false, features = ["std"] }
serde_json = "1"
rust_decimal = "1"
uuid = "1"
sea-query = { version = "0.32", features = ["with-chrono", "with-json", "with-uuid", "with-rust_decimal", "postgres-array", "postgres-vector"] }
pgvector = "0.4"
pyo3 = { version = "0.27", features = ["chrono", "uuid", "rust_decimal"] }
parking_lot = "0.12"
once_cell = "1"
