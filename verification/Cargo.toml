[package]
name = "custodial_gateway"
version = "0.1.0"
edition = "2021"
publish = false

[dependencies]
stellar-base = "=0.5.0"
stellar_sdk = "=0.1.4"
chrono = "=0.4.45"
uuid = { version = "=1.27.0", features = ["v4"] }
bigdecimal = "=0.4.11"
serde = { version = "=1.0.229", features = ["derive"] }
reqwest = { version = "=0.13.5", features = ["form", "json"] }
dotenv = "=0.15.0"
diesel = { version = "=2.3.13", features = ["uuid", "chrono", "numeric"] }
diesel-async = { version = "=0.9.2", features = ["postgres"] }
