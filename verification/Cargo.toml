[package]
name = "git_autosnap"
version = "0.1.0"
edition = "2021"
publish = false

[dependencies]
anyhow = "=1.0.104"
clap = { version = "=4.6.7", features = ["derive"] }
git2 = { version = "=0.21.0", default-features = false, features = ["vendored-libgit2"] }
nix = { version = "=0.26.4", features = ["fs", "poll", "process", "signal", "time", "user"] }
time = { version = "=0.3.55", features = ["local-offset"] }
tokio = { version = "=1.53.2", features = ["rt", "rt-multi-thread", "process", "time", "io-util", "sync", "signal"] }
watchexec = "=8.4.4"
watchexec-events = "=6.1.3"
watchexec-signals = "=5.1.1"
watchexec-filterer-ignore = "=7.0.6"
ignore-files = "=3.0.8"
tracing = "=0.1.44"
tracing-appender = "=0.2.5"
tracing-subscriber = { version = "=0.3.23", features = ["env-filter"] }
tempfile = "=3.27.0"
