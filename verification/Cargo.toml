[package]
name = "chain_sync"
version = "0.1.0"
edition = "2021"
publish = false

[dependencies]
anyhow = "*"
async-trait = "*"
base64 = "*"
clap = { version = "*", features = ["derive"] }
dotenv = "*"
postcard = { version = "*", default-features = false, features = ["alloc"] }
reqwest = { version = "*", default-features = false, features = ["json"] }
serde = { version = "*", features = ["derive"] }
serde_json = "*"
sysinfo = "*"
tokio = { version = "*", features = ["rt-multi-thread", "macros", "sync", "time"] }
