[package]
name = "castellan"
version = "0.1.0"
edition = "2021"
publish = false

[dependencies]
ratatui = "=0.29.0"
crossterm = "=0.28.1"
tui-scrollview = "=0.5.3"
tracing = "=0.1.44"
tracing-subscriber = "=0.3.23"
chrono = "=0.4.45"
serde = { version = "=1.0.229", features = ["derive"] }
config = { version = "=0.15.27", default-features = false, features = ["toml"] }
thiserror = "=2.0.21"
tokio = { version = "=1.54.1", features = ["rt-multi-thread", "macros", "sync"] }
dotenv = "=0.15.0"
rig-core = { version = "=0.32.0", default-features = false, features = ["reqwest-native-tls"] }
