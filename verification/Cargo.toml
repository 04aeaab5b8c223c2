[package]
name = "pendulum_launch"
version = "0.1.0"
edition = "2021"
publish = false

[dependencies]
ctrlc = "=3.5.2"
structopt = "=0.3.26"
serde = { version = "1", features = ["derive"] }
serde_json = "1"
