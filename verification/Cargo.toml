[package]
name = "canyon_crud"
version = "0.1.0"
edition = "2021"
publish = false

[dependencies]
tokio-postgres = { version = "0.7", features = ["with-chrono-0_4"] }
tiberius = { version = "0.12", default-features = false, features = ["chrono", "tds73"] }
chrono = { version = "0.4", default-features = false, features = ["std"] }
bytes = "1"
tokio = { version = "1", features = ["rt-multi-thread", "macros", "net"] }
tokio-util = { version = "0.7", features = ["compat"] }
