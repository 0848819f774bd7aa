[package]
name = "exo_planets"
version = "0.1.0"
edition = "2021"
publish = false

[dependencies]
clap = { version = "4", features = ["derive"] }
csv = "1"
linfa = "0.7"
linfa-logistic = "0.7"
ndarray = "0.15"
rand = "0.8"
rand_chacha = "0.3"
serde = { version = "1", features = ["derive"] }
serde_json = "1"
thiserror = "1"
ureq = "2"
