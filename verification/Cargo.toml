[package]
name = "peer_games"
version = "0.1.0"
edition = "2021"
publish = false

[dependencies]
chacha20poly1305 = "=0.10.1"
clap = { version = "=4.6.7", default-features = false, features = ["derive", "std", "help", "usage", "error-context"] }
crossterm = { version = "=0.28.1", features = ["event-stream"] }
futures-lite = "=2.6.1"
iroh = { version = "=1.4.1", default-features = false, features = ["tls-ring"] }
ratatui = "=0.29.0"
thiserror = "=2.0.21"
tokio = { version = "=1.54.1", features = ["full"] }
