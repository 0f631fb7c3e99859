[package]
name = "paperless_ngx_tools"
version = "0.1.0"
edition = "2021"
publish = false

[dependencies]
clap = { version = "4", features = ["derive"] }
confy = "*"
env_logger = "*"
indicatif = "*"
log = "*"
paperless_ngx_api = "*"
serde = { version = "1", features = ["derive"] }
thiserror = "*"
tokio = { version = "1", features = ["macros", "rt-multi-thread", "time"] }
