[package]
name = "collect_fee"
version = "0.1.0"
edition = "2021"
publish = false

[dependencies]
alloy = { version = "1.0", default-features = false, features = ["std"] }
chrono = { version = "0.4", default-features = false, features = ["std", "now"] }
dotenv = "0.15"
ethabi = { version = "18", default-features = false, features = ["std"] }
hex = "0.4"
http = "1"
serde = { version = "1", features = ["derive"] }
serde_json = "1"
tokio = { version = "1", features = ["macros", "rt-multi-thread", "time"] }
toml = "0.8"
