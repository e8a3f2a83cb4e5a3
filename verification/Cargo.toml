[package]
name = "print_queue"
version = "0.1.0"
edition = "2021"
publish = false

[dependencies]
uuid = { version = "=1.29.0", features = ["v4", "serde"] }
chrono = { version = "=0.4.45", default-features = false, features = ["clock", "serde", "std"] }
sha2 = "=0.10.9"
hex = "=0.4.3"
serde = { version = "=1.0.229", features = ["derive"] }
serde_json = "=1.0.154"
notify = "=8.2.1"
zip = { version = "=2.6.1", default-features = false, features = ["deflate"] }
image = { version = "=0.25.10", default-features = false, features = ["jpeg", "png", "tiff"] }
lopdf = { version = "=0.34.0", default-features = false, features = ["nom_parser"] }
flate2 = "=1.1.10"
printers = "=2.3.0"
