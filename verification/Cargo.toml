[package]
name = "route_bucket"
version = "0.1.0"
edition = "2021"
publish = false

[dependencies]
nanoid = "=0.4.0"
validator = "=0.21.0"
regex = "=1.13.1"
chrono = "=0.4.45"
serde = { version = "=1.0.229", features = ["derive"] }
serde_json = "=1.0.154"
polyline = "=0.11.0"
geo = "=0.33.1"
gpx = "=0.10.0"
quick-xml = "=0.42.0"
byteorder = "=1.5.0"
jsonwebtoken = "9"
