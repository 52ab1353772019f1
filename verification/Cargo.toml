[package]
name = "bluestone"
version = "0.1.0"
edition = "2021"
publish = false

[dependencies]
anyhow = "=1.0.104"
color-eyre = { version = "=0.6.5", default-features = false }
dotenvy = "=0.15.7"
mcserver = "=0.1.11"
once_cell = "=1.21.4"
serenity = { version = "=0.12.5", default-features = false, features = ["client", "gateway", "model", "rustls_backend"] }
thiserror = "=1.0.69"
tokio = { version = "=1.54.1", features = ["macros", "rt-multi-thread"] }
