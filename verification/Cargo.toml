[package]
name = "simple_statusbar"
version = "0.1.0"
edition = "2021"
publish = false

[dependencies]
chrono = "0.4"
chrono-tz = "*"
nix = { version = "*", features = ["time", "process"] }
tokio = { version = "1", features = ["rt", "io-util", "io-std", "sync", "net", "time"] }
dbus = "*"
dbus-tokio = "*"
