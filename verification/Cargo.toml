[package]
name = "coldmaps"
version = "0.1.0"
edition = "2021"
publish = false

[dependencies]
fnv = "1"
tf-demo-parser = "*"
serde = { version = "1", features = ["derive"] }
serde_json = "1"
image = { version = "0.24", default-features = false, features = ["png"] }
palette = "0.6"
line_drawing = "1"
rayon = "1"
reqwest = { version = "0.11", features = ["json"] }
tokio = { version = "1", features = ["rt"] }
