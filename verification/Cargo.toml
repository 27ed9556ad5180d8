[package]
name = "spi_poll"
version = "0.1.0"
edition = "2021"
publish = false

[dependencies]
clap = { version = "4", features = ["derive"] }
spidev = "*"
tracing = "0.1"
tracing-subscriber = { version = "0.3", features = ["env-filter"] }
