[package]
name = "servercore"
version = "0.1.0"
edition = "2021"
publish = false

[dependencies]
rayon = "1"
rusty-money = "0.4"
serde = { version = "1", features = ["derive"] }
tokio = { version = "1", features = ["macros", "rt-multi-thread"] }
tonic = { version = "*", default-features = false }
url = "2"
uuid = { version = "1", features = ["v4"] }
validator = { version = "0.16", features = ["phone"] }
