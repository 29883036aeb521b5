[package]
name = "pitboss"
version = "0.1.0"
edition = "2021"
publish = false

[dependencies]
diesel = { version = "=1.4.8", features = ["mysql", "r2d2"] }
dotenv = "=0.15.0"
lazy_static = "=1.5.1"
serde = { version = "=1.0.229", features = ["derive"] }
serde_yaml = "=0.8.26"
serenity = { version = "=0.6.4", default-features = false, features = ["default_native_tls"] }
