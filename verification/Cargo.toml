[package]
name = "flutter_rust_project_cleaner"
version = "0.1.0"
edition = "2021"
publish = false

[dependencies]
anyhow = "*"
clap = { version = "*", features = ["derive"] }
clap_complete = "*"
colored = "*"
dialoguer = "*"
fs-err = "*"
glob-match = "=0.2.1"
home = "*"
humansize = "*"
indicatif = "*"
num_cpus = "=1.17.0"
rayon = "*"
serde = { version = "*", features = ["derive"] }
serde_json = "*"
serde_yaml = "=0.9.34"
thiserror = "*"
tokio = { version = "*", features = ["rt-multi-thread", "macros", "signal"] }
toml = "=1.1.7"
tracing = "*"
tracing-subscriber = { version = "*", features = ["env-filter"] }
walkdir = "=2.5.0"
which = "=8.0.6"
