[package]
name = "rover_core"
version = "0.1.0"
edition = "2021"
publish = false

[dependencies]
anyhow = "*"
async-std = { version = "*", features = ["attributes"] }
env_logger = "*"
gilrs = "*"
linux-embedded-hal = "*"
log = "*"
pwm-pca9685 = "*"
serde = { version = "*", features = ["derive"] }
tide = "*"
toml = "*"
