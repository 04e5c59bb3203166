[package]
name = "solar_telemetry"
version = "0.1.0"
edition = "2021"
publish = false

[dependencies]
chrono = "*"
config = "*"
log = "*"
log4rs = "*"
myloginrs = "*"
once_cell = "*"
regex = "*"
reqwest = { version = "*", default-features = false, features = ["json", "rustls-tls"] }
serde = { version = "*", features = ["derive"] }
serde_json = "*"
sqlx = { version = "*", default-features = false, features = ["runtime-tokio", "mysql", "chrono"] }
tokio = { version = "*", features = ["rt-multi-thread", "macros", "time"] }
