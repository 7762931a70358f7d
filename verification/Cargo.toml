[package]
name = "ordering_service"
version = "0.1.0"
edition = "2021"
publish = false

[dependencies]
uuid = { version = "=1.29.0", features = ["v4"] }
chrono = "=0.4.45"
async-trait = "=0.1.92"
thiserror = "=1.0.69"
serde = { version = "=1.0.229", features = ["derive"] }
serde_json = "1"
apache-avro = { version = "=0.22.0", features = ["derive"] }
rdkafka = "=0.39.0"
sea-orm = "=2.0.4"
