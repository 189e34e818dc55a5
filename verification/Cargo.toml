[package]
name = "perfbench"
version = "0.1.0"
edition = "2021"
publish = false

[dependencies]
serde_json = "*"
actix-web = "*"
chrono = { version = "*", features = ["serde"] }
deadpool-postgres = "*"
serde = { version = "*", features = ["derive"] }
tokio-postgres = { version = "*", features = ["with-chrono-0_4", "with-uuid-1", "with-serde_json-1"] }
uuid = { version = "*", features = ["serde"] }
