[package]
name = "sword_drill"
version = "0.1.0"
edition = "2021"
publish = false

[dependencies]
actix-web = "4"
handlebars = { version = "4", features = ["dir_source"] }
serde = { version = "1", features = ["derive"] }
