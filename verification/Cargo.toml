[package]
name = "chess_diagram"
version = "0.1.0"
edition = "2021"
publish = false

[dependencies]
shakmaty = "0.27"
shakmaty-uci = "0.1"
rand = "0.9"
chrono = "0.4"
clap = { version = "4.5", features = ["derive"] }
log = "0.4"
