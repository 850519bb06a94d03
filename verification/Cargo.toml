[package]
name = "audio_bicycle"
version = "0.1.0"
edition = "2021"
publish = false

[dependencies]
clap = { version = "4", features = ["derive"] }
directories = "5"
env_logger = "0.11"
futures = "0.3"
libpulse-binding = "2"
libpulse-simple-binding = "2"
log = "0.4"
once_cell = "1"
serde = { version = "1", features = ["derive"] }
thiserror = "1"
tokio = { version = "1", features = ["macros", "net", "rt-multi-thread", "sync", "time"] }
toml = "0.8"
