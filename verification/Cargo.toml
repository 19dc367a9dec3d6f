[package]
name = "imagehost"
version = "0.1.0"
edition = "2021"
publish = false

[dependencies]
nanoid = "*"
rocket = "0.5"
rocket_db_pools = { version = "*", features = ["sqlx_postgres"] }
