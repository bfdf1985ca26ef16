[package]
name = "mssql_tiberius_bridge"
version = "0.1.0"
edition = "2021"
publish = false

[dependencies]
mssql-tds = "0.1"
uuid = "1"
chrono = "0.4"
rust_decimal = "1"
serde = { version = "1", features = ["derive"] }
serde_json = "1"
arrow-array = "*"
arrow-schema = "*"
deadpool = { version = "*", features = ["managed", "rt_tokio_1"] }
bb8 = "*"
tokio = { version = "1", features = ["rt-multi-thread", "macros", "time"] }
futures-core = "0.3"
async-stream = "0.3"
async-trait = "0.1"
time = "0.3"
jiff = "0.2"
