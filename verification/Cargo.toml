[package]
name = "tcc_live_capture"
version = "0.1.0"
edition = "2021"
publish = false

[dependencies]
serde_json = "1"
tokio = { version = "1", features = ["rt-multi-thread", "macros", "time", "signal", "sync"] }
reqwest = { version = "*", default-features = false }
diesel = { version = "2", features = ["sqlite", "r2d2"] }
dotenv = "0.15"
