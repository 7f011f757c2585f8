[package]
name = "northwind_api"
version = "0.1.0"
edition = "2021"
publish = false

[dependencies]
actix-web = "4"
reqwest = { version = "0.12", features = ["json"] }
rusqlite = "*"
serde = { version = "1", features = ["derive"] }
