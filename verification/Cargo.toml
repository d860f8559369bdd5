[package]
name = "pmocontrol"
version = "0.1.0"
edition = "2021"
publish = false

[dependencies]
ureq = "=3.5.1"
xmltree = "=0.11.0"
serde = { version = "=1.0.229", features = ["derive"] }
serde_json = "=1.0.154"
quick-xml = "=0.37.5"
rand = "0.8"
