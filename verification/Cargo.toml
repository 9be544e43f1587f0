[package]
name = "pgjson"
version = "0.1.0"
edition = "2021"
publish = false

[dependencies]
jsonb = "=0.5.6"
serde = "=1.0.229"
serde_json = { version = "=1.0.154", features = ["arbitrary_precision", "preserve_order"] }
