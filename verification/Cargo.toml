[package]
name = "mairie360_api_lib"
version = "0.1.0"
edition = "2021"
publish = false

[dependencies]
tokio = { version = "*", features = ["rt-multi-thread", "macros", "time"] }
tokio-postgres = "*"
jsonwebtoken = "*"
thiserror = "*"
serde = { version = "*", features = ["derive"] }
