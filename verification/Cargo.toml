[package]
name = "manga_search"
version = "0.1.0"
edition = "2021"
publish = false

[dependencies]
bytes = "=1.12.1"
crossterm = "=0.29.0"
image = { version = "=0.25.10", default-features = false, features = ["png", "jpeg"] }
ratatui = "=0.30.2"
ratatui-image = { version = "=11.1.0", default-features = false, features = ["crossterm"] }
tokio = { version = "=1.53.2", default-features = false, features = ["rt", "sync"] }
tui-input = "=0.15.5"
tui-widget-list = "=0.15.3"
