[package]
name = "gluster_coord"
version = "0.1.0"
edition = "2021"
publish = false

[dependencies]
chrono = "=0.4.45"
debian = "=0.1.2"
fstab = "=0.4.0"
gluster = "=0.7.3"
init-daemon = "=0.1.0"
ipnetwork = "=0.21.1"
juju = "=1.0.0"
pnet = "=0.35.0"
rand = "=0.10.3"
resolve = "=0.2.0"
rustc-serialize = "=0.3.25"
serde_yaml = "=0.9.34"
uuid = { version = "=1.27.0", features = ["v4"] }
