[package]
name = "ebb_db"
version = "0.1.0"
edition = "2021"
publish = false

[dependencies]
dirs = "*"
log = "*"
async-std = "*"
sqlx = { version = "*", default-features = false, features = ["runtime-async-std", "sqlite"] }
