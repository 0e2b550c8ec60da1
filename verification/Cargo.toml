[package]
name = "rekt"
version = "0.1.0"
edition = "2021"
publish = false

[dependencies]
bytes = "*"
crossbeam-queue = "*"
dashmap = "*"
lazy_static = "*"
local-ip-address = "*"
log = "*"
num_cpus = "*"
parking_lot = "*"
pretty_env_logger = "*"
quinn = { version = "*", default-features = false, features = ["rustls-ring", "runtime-tokio", "log"] }
rand = "*"
rcgen = { version = "*", default-features = false, features = ["crypto", "pem", "ring"] }
rustls = { version = "*", default-features = false, features = ["ring", "logging", "std", "tls12"] }
serde = { version = "*", features = ["derive"] }
thiserror = "*"
tokio = { version = "*", features = ["full"] }
toml = "*"
