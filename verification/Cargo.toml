[package]
name = "bang"
version = "0.1.0"
edition = "2021"
publish = false

[dependencies]
anyhow = "1"
clap = { version = "3.2", features = ["derive"] }
crossterm = "0.25"
cursive = { version = "0.19", default-features = false, features = ["crossterm-backend", "toml"] }
cursive-tabs = "0.7"
derivative = "2"
dirs = "4"
fern = "0.6"
log = "0.4"
serde = { version = "1", features = ["derive"] }
shell-words = "1"
time = { version = "0.3", features = ["macros", "formatting"] }
tokio = { version = "1", features = ["full"] }
toml = "0.5"
tracing = "0.1"
tui = "0.19"
