[package]
name = "type_description"
version = "0.1.0"
edition = "2021"
publish = false

[dependencies]
serde = { version = "=1.0.229", features = ["derive"] }
type_description_derive = "=0.1.0"
