[package]
name = "nmrs_gui"
version = "0.1.0"
edition = "2021"
publish = false

[dependencies]
nmrs = "*"
dirs = "*"
gtk4 = "*"
libadwaita = { version = "*", features = ["v1_6"] }
glib = "*"
tokio = { version = "*", features = ["sync"] }
clap = { version = "*", features = ["derive"] }
anyhow = "*"
log = "*"
