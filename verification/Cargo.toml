[package]
name = "cr8s"
version = "0.1.0"
edition = "2021"
publish = false

[dependencies]
argon2 = { version = "=0.5.3", features = ["std"] }
rand = "=0.8.8"
chrono = { version = "=0.4.45", features = ["serde"] }
diesel = { version = "=2.3.14", features = ["postgres", "chrono"] }
rocket = { version = "=0.5.2", features = ["json"] }
rocket_sync_db_pools = { version = "=0.1.0", features = ["diesel_postgres_pool"] }
rocket_db_pools = { version = "0.2", features = ["deadpool_redis"] }
serde = { version = "1.0", features = ["derive"] }
log = "0.4"
lettre = "=0.10.4"
tera = "=1.20.1"
