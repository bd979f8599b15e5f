[package]
name = "midi_transposer"
version = "0.1.0"
edition = "2021"
publish = false

[dependencies]
rosc = "*"
midir = "*"
rumqttc = "*"
serde = { version = "1", features = ["derive"] }
serde_json = "1"
termcolor = "1"
