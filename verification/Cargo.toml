[package]
name = "sdv_twin"
version = "0.1.0"
edition = "2021"
publish = false

[dependencies]
socketcan = "*"
ractor = "*"
tokio = { version = "*", features = ["full"] }
anyhow = "*"
async-trait = "*"
rand = "*"
serde = { version = "*", features = ["derive"] }
time = { version = "*", features = ["macros", "formatting"] }
