[package]
name = "dugong"
version = "0.1.0"
edition = "2021"
publish = false

[dependencies]
anyhow = "=1.0.104"
dbus = { version = "=0.9.12", features = ["vendored"] }
dbus-crossroads = "=0.5.3"
flexbuffers = "=2.0.0"
getopts = "=0.2.24"
libc = "=0.2.191"
log = "=0.4.34"
multi_log = "=0.1.2"
openssl = "=0.10.81"
serde = { version = "=1.0.229", features = ["derive"] }
serde_bytes = "=0.11.19"
stderrlog = "=0.6.0"
sys_util = "=0.1.0"
syslog = "=6.1.1"
thiserror = "=1.0.69"
