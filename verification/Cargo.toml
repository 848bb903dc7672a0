[package]
name = "cdevent"
version = "0.1.0"
edition = "2021"
publish = false

[dependencies]
cdevents-sdk = { version = "=0.4.1", features = ["cloudevents"] }
clap = { version = "=4.6.7" }
cloudevents-sdk = { version = "=0.9.0", features = ["reqwest"] }
log = { version = "=0.4.34" }
reqwest = { version = "=0.12.28", default-features = false }
serde_json = { version = "=1.0.154" }
tokio = { version = "=1.54.1", features = ["macros", "rt-multi-thread"] }
