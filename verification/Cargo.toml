[package]
name = "rusty_razer_tray"
version = "0.1.0"
edition = "2021"
publish = false

[dependencies]
serde = { version = "*", features = ["derive"] }
serde_json = "*"
zbus = "*"
zvariant = "*"
tokio = { version = "*", features = ["rt", "time"] }
ksni = "*"
fs2 = "*"
libc = "*"
