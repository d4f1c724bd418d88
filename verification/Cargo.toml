[package]
name = "birdy_bot"
version = "0.1.0"
edition = "2021"
publish = false

[dependencies]
serde_json = "1"
serde = { version = "1", features = ["derive"] }
reqwest = { version = "0.11", default-features = false, features = ["json", "multipart"] }
tokio = { version = "1", features = ["macros", "rt-multi-thread", "time"] }
tungstenite = "*"
url = "2"
image = { version = "0.24", default-features = false, features = ["png"] }
plotters = { version = "0.3", default-features = false, features = ["bitmap_backend", "bitmap_encoder"] }
dotenv = "0.15"
