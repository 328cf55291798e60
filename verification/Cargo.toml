[package]
name = "motis-proxy"
version = "0.1.0"
edition = "2021"
publish = false

[dependencies]
log = "0.4"
lru = "*"
reqwest = { version = "*", default-features = false, features = ["json"] }
rocket = { version = "0.5", features = ["json"] }
rocket_cors = "*"
rocket_okapi = { version = "*", features = ["rapidoc"] }
serde = { version = "1", features = ["derive"] }
serde_default = "*"
serde_json = "1"
serde_repr = "0.1"
