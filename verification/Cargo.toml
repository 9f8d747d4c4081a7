[package]
name = "sql_servers"
version = "0.1.0"
edition = "2021"
publish = false

[dependencies]
async-trait = "0.1"
opensrv-mysql = "0.3"
rand = "0.8"
sqlparser = "0.15"
tokio = { version = "1", features = ["sync", "io-util"] }
