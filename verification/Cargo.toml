[package]
name = "score_extractor"
version = "0.1.0"
edition = "2021"
publish = false

[dependencies]
anyhow = "*"
chrono = "*"
clap = { version = "*", features = ["derive", "env"] }
clap-verbosity-flag = "*"
deadpool-diesel = { version = "*", features = ["postgres"] }
diesel = { version = "*", features = ["postgres", "chrono"] }
diesel-derive-enum = { version = "*", features = ["postgres"] }
diesel_migrations = "*"
duration-str = "*"
serde = { version = "*", features = ["derive"] }
tokio = { version = "*", features = ["macros", "rt-multi-thread", "signal", "time"] }
tracing = "*"
tracing-subscriber = "*"
