[package]
name = "status_bar"
version = "0.1.0"
edition = "2021"
publish = false

[dependencies]
anyhow = "=1.0.104"
chrono = "=0.4.45"
futures = "=0.3.34"
gio = "=0.22.10"
gtk4 = "=0.11.5"
gtk4-layer-shell = "=0.8.1"
hyprland = "=0.4.0-beta.3"
pipewire = "=0.8.0"
thiserror = "=2.0.21"
tokio = { version = "=1.54.1", features = ["rt-multi-thread", "sync", "macros"] }
tracing = "=0.1.44"
tracing-subscriber = { version = "=0.3.23", features = ["env-filter"] }
zbus = "=5.19.0"
zbus_names = "=4.3.5"
