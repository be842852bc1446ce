[package]
name = "prmait"
version = "0.1.0"
edition = "2021"
publish = false

[dependencies]
clap = { version = "=4.6.7", features = ["derive"] }
clap_complete_command = "=0.6.1"
color-eyre = "=0.6.5"
comfy-table = "=7.2.2"
figment = { version = "=0.10.19", features = ["json", "env"] }
fs_extra = "=1.3.0"
gix-discover = { version = "=0.57.1", features = ["sha1"] }
serde = { version = "=1.0.229", features = ["derive"] }
serde_json = "=1.0.154"
thiserror = "=1.0.69"
time = { version = "=0.3.55", features = ["serde", "formatting", "parsing", "serde-well-known"] }
tokio = { version = "=1.54.1", features = ["rt-multi-thread"] }
tracing = "=0.1.44"
tracing-subscriber = "=0.3.23"

[dev-dependencies]
nom = "7"
