[package]
name = "genau"
version = "0.1.0"
edition = "2021"
publish = false

[dependencies]
rusqlite = "=0.40.2"
serde = { version = "=1.0.229", features = ["derive"] }
serde_json = "=1.0.154"
dirs = "=7.0.0"
dotenv = "=0.15.0"
async-openai = { version = "=0.42.2", features = ["completions"] }
