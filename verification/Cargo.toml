[package]
name = "modbus_ext"
version = "0.1.0"
edition = "2021"
publish = false

[dependencies]
http = "*"
anyhow = "*"
async-trait = "*"
clap = { version = "*", features = ["derive"] }
serde_json = "*"
tokio = { version = "*", features = ["macros", "rt-multi-thread"] }
tokio-modbus = "*"
tokio-serial = "*"
