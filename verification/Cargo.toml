[package]
name = "watchdog"
version = "0.1.0"
edition = "2021"
publish = false

[dependencies]
async-trait = "=0.1.92"
bollard = "=0.15.0"
chrono = { version = "=0.4.45", default-features = false, features = ["std", "now"] }
env_logger = "=0.10.2"
# bollard hands out a container's statistics as a stream; this reads its first item
futures-util = "=0.3.34"
lettre = { version = "=0.11.23", default-features = false, features = ["builder", "smtp-transport", "rustls-tls"] }
log = "=0.4.34"
reqwest = { version = "=0.11.27", default-features = false, features = ["json", "rustls-tls"] }
serde_json = "=1.0.154"
sysinfo = "=0.29.11"
thiserror = "=1.0.69"
tokio = { version = "=1.54.1", features = ["macros", "rt-multi-thread", "time"] }
# the URL parser that reqwest reads a webhook URL with
url = "=2.5.8"
