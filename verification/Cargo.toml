[package]
name = "todoql"
version = "0.1.0"
edition = "2021"
publish = false

[dependencies]
mongodb = "2"
async-graphql = "7"
async-graphql-warp = "7"
warp = "0.3"
http = "0.2"
tokio = { version = "1", features = ["macros", "rt-multi-thread"] }
serde = { version = "1", features = ["derive"] }
dotenv = "0.15"
