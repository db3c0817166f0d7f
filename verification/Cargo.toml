[package]
name = "corpo"
version = "0.1.0"
edition = "2021"
publish = false

[dependencies]
serde_json = "*"
mime_guess = "*"
serde = { version = "*", features = ["derive"] }
axum = "*"
tokio = { version = "*", features = ["rt-multi-thread", "macros", "net", "fs"] }
reqwest = { version = "*", default-features = false, features = ["json"] }
sqlx = { version = "*", default-features = false, features = ["runtime-tokio", "sqlite"] }
url = "*"
cid = "*"
