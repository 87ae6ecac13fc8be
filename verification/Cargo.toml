[package]
name = "shoppingcart"
version = "0.1.0"
edition = "2021"
publish = false

[dependencies]
async-graphql = { version = "=6.0.11", features = ["bson", "chrono", "uuid"] }
async-graphql-axum = "=6.0.11"
axum = { version = "=0.6.20", features = ["macros"] }
bson = { version = "=2.15.0", features = ["chrono-0_4", "uuid-1"] }
clap = { version = "4", features = ["derive"] }
futures = "0.3"
log = "0.4"
mongodb = "=2.8.2"
mongodb-cursor-pagination = "=0.3.2"
serde = { version = "1", features = ["derive"] }
simple_logger = "4"
tokio = { version = "1", features = ["full"] }
uuid = "=1.29.0"
