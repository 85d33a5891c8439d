[package]
name = "kommandozeile"
version = "0.1.0"
edition = "2021"
publish = false

[dependencies]
clap = { version = "=3.2.25", features = ["derive"] }
concolor = { version = "=0.0.12", features = ["auto", "api_unstable"] }
color-eyre = "=0.6.5"
tracing = "=0.1.44"
tracing-subscriber = { version = "=0.3.23", features = ["env-filter"] }
tracing-error = "=0.2.1"
same-file = "=1.0.6"
filepath = "=0.1.3"
argfile = "=0.1.6"
wild = "=2.2.1"
