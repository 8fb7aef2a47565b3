[package]
name = "protos"
version = "0.1.0"
edition = "2021"
publish = false

[dependencies]
prost = "0.12"
prost-types = "0.12"
prost-wkt = "0.5"
prost-wkt-types = "0.5"
serde = { version = "1", features = ["derive"] }
tonic = "0.11"
http = "0.2"

[dev-dependencies]
