[package]
name = "serialize_with_bson"
version = "0.1.0"
edition = "2021"
publish = false

[dependencies]
bson = "2"
gostd_time = "*"
serde = { version = "1", features = ["derive"] }

[dev-dependencies]
serde_json = "1"
