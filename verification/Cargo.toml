[package]
name = "buddies"
version = "0.1.0"
edition = "2021"
publish = false

[dependencies]
anyhow = "=1.0.104"
bcrypt = "=0.15.1"
chrono = "=0.4.45"
clap = "=2.34.0"
diesel = { version = "=1.4.8", features = ["postgres", "r2d2"] }
env_logger = "=0.10.2"
jsonwebtoken = "=9.3.1"
log = "=0.4.34"
serde = { version = "=1.0.229", features = ["derive"] }
serde_json = "=1.0.154"
structopt = "=0.3.26"
tokio = { version = "=1.54.1", features = ["macros", "rt-multi-thread"] }
uuid = { version = "=1.29.0", features = ["v4", "serde"] }
warp = { version = "=0.3.7", default-features = false }

[dev-dependencies]
rsa = { version = "0.9", features = ["getrandom"] }
