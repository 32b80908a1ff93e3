[package]
name = "printing_service"
version = "0.1.0"
edition = "2021"
publish = false

[dependencies]
actix-cors = "=0.7.2"
actix-web = "=4.15.0"
base64 = "=0.23.1"
headless_chrome = "=0.9.0"
parking_lot = "=0.12.5"
printers = "=2.3.0"
rand = "=0.8.8"
serde = { version = "1", features = ["derive"] }
windows-service = "=0.8.1"
