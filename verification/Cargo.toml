[package]
name = "datafusion_unity_catalog"
version = "0.1.0"
edition = "2021"
publish = false

[dependencies]
async-trait = "=0.1.92"
chrono = "=0.4.38"
datafusion = "=37.1.0"
deltalake = { version = "=0.17.3", features = ["datafusion"] }
reqwest = { version = "=0.11.27", default-features = false, features = ["json"] }
serde = { version = "=1.0.229", features = ["derive"] }
tracing = "=0.1.44"
url = "=2.5.8"
