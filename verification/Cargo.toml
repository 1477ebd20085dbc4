[package]
name = "elenath"
version = "0.1.0"
edition = "2021"
publish = false

[dependencies]
astro_units = "=1.1.0"
uom = { version = "=0.38.0", features = ["serde"] }
serde = { version = "=1.0.229", features = ["derive"] }
serde_json = "=1.0.154"
iced = { version = "=0.14.0", features = ["canvas"] }
