[package]
name = "rpc_poller"
version = "0.1.0"
edition = "2021"
publish = false

[dependencies]
serde = { version = "*", features = ["derive"] }
serde_json = "*"
tokio = { version = "*", features = ["macros", "rt-multi-thread", "time", "sync"] }
reqwest = { version = "*", default-features = false, features = ["json"] }
actix-web = { version = "*", default-features = false, features = ["macros"] }
actix-cors = "*"
dotenv = "*"
futures = "*"
lazy_static = "*"
openssl-probe = "*"
prometheus = "*"
tracing = "*"
tracing-subscriber = { version = "*", features = ["env-filter"] }
tracing-actix-web = "*"
