[package]
name = "mdns_browser"
version = "0.1.0"
edition = "2021"
publish = false

[dependencies]
regex = "=1.13.1"
anyhow = "=1.0.104"
clap = { version = "=4.6.7", features = ["derive"] }
color-eyre = "=0.6.5"
crossterm = "=0.27.0"
flume = "=0.11.1"
mdns-sd = "=0.13.11"
parking_lot = "=0.12.5"
ratatui = "=0.26.3"
textwrap = "=0.16.4"
tracing = "=0.1.44"
tracing-appender = "=0.2.5"
tracing-subscriber = { version = "=0.3.23", features = ["env-filter"] }
