[package]
name = "examroom"
version = "0.1.0"
edition = "2021"
publish = false

[dependencies]
chrono = "*"
axum = "*"
axum-extra = { version = "*", features = ["form"] }
tokio = { version = "*", features = ["rt-multi-thread", "net", "macros"] }
serde = { version = "*", features = ["derive"] }
serde_json = "*"
reqwest = { version = "*", default-features = false, features = ["json"] }
minijinja = "*"
minijinja-contrib = "*"
once_cell = "*"
dotenv = "*"
