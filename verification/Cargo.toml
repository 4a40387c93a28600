[package]
name = "codetwin"
version = "0.1.0"
edition = "2021"
publish = false

[dependencies]
anyhow = "*"
chrono = "*"
clap = { version = "*", features = ["derive"] }
glob = "*"
ignore = "*"
notify-debouncer-mini = "*"
petgraph = "*"
rayon = "*"
serde = { version = "*", features = ["derive"] }
serde_json = "*"
toml = "*"
tracing = "*"
tracing-subscriber = { version = "*", features = ["env-filter"] }
tree-sitter = "*"
tree-sitter-python = "*"
tree-sitter-rust = "*"
walkdir = "*"
