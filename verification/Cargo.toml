[package]
name = "rocket_hexagonal"
version = "0.1.0"
edition = "2021"
publish = false

[dependencies]
anyhow = "1"
chrono = "0.4"
log = "0.4"
num-traits = "0.2"
rocket = "0.5"
sea-orm = { version = "1", default-features = false, features = ["macros"] }
shaku = "*"
shaku_rocket = "*"
sqlx = { version = "0.8", default-features = false, features = ["postgres", "runtime-tokio", "chrono", "bigdecimal", "derive"] }
