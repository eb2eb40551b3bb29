[package]
name = "openweather"
version = "0.1.0"
edition = "2021"
publish = false

[dependencies]
chrono = "0.4"
exitfailure = "0.5"
failure = "0.1"
reqwest = { version = "0.11", features = ["json"] }
serde = { version = "1", features = ["derive"] }
serde_derive = "1"
structopt = "0.3"
tokio = { version = "1", features = ["macros", "rt-multi-thread"] }
