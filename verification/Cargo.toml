[package]
name = "meshtui"
version = "0.1.0"
edition = "2021"
publish = false

[dependencies]
anyhow = "1"
circular-buffer = "=0.1.9"
clap = { version = "4", features = ["derive"] }
crossterm = { version = "0.27", features = ["event-stream"] }
futures = "0.3"
geoutils = "0.5"
itertools = "0.12"
meshtastic = "=0.1.9"
pretty-duration = "0.1"
ratatui = "0.27"
strum = { version = "0.26", features = ["derive"] }
thiserror = "1"
time = { version = "0.3", features = ["formatting", "macros"] }
tokio = { version = "1", features = ["full"] }
tracing = "0.1"
tracing-subscriber = { version = "0.3", features = ["env-filter"] }
tui-logger = { version = "0.11", features = ["tracing-support"] }
