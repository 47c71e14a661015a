[package]
name = "planning_poker"
version = "0.1.0"
edition = "2021"
publish = false

[dependencies]
regex = "=1.13.1"
rand = "=0.8.8"
teloxide = { version = "=0.12.2", features = ["macros"] }
takecell = "=0.1.1"
tokio = { version = "1", features = ["rt-multi-thread", "macros"] }
tokio-rusqlite = "=0.3.0"
rusqlite = "=0.28.0"
dotenv = "=0.15.0"
pretty_env_logger = "=0.4.0"
dptree = "=0.3.0"
