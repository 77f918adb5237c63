[package]
name = "weather_lookup"
version = "0.1.0"
edition = "2021"
publish = false

[dependencies]
colored = "*"
reqwest = { version = "*", default-features = false, features = ["json"] }
serde = { version = "*", features = ["derive"] }
text_io = "*"
tokio = { version = "*", features = ["macros", "rt-multi-thread"] }
