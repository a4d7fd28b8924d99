[package]
name = "intrack"
version = "0.1.0"
edition = "2021"
publish = false

[dependencies]
bon = "=3.10.3"
clap = { version = "=4.6.7", features = ["derive"] }
clap-verbosity-flag = "=3.0.4"
crossterm = { version = "=0.28.1", features = ["event-stream"] }
derive_more = { version = "=2.1.1", features = ["debug"] }
dialoguer = "=0.12.0"
dotenvy = "=0.15.7"
error-stack = "=0.8.0"
futures = "=0.3.34"
gix-config = "=0.62.1"
gix-hash = { version = "=0.28.1", features = ["sha1"] }
jiff = { version = "=0.2.38", features = ["serde"] }
owo-colors = "=4.4.0"
ratatui = "=0.29.0"
ropey = "=1.6.1"
serde = { version = "=1.0.229", features = ["derive"] }
serde_json = "=1.0.154"
serde_yaml = "=0.9.34"
smart-default = "=0.7.1"
strum = { version = "=0.28.0", features = ["derive"] }
textwrap = "=0.16.4"
tokio = { version = "=1.54.1", features = ["full"] }
tokio-util = "=0.7.20"
tracing-subscriber = { version = "=0.3.23", features = ["env-filter"] }
tui-widget-list = "=0.13.3"
wherror = "=2.4.0"

[dev-dependencies]
regex = "=1.13.1"
