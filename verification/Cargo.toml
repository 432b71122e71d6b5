[package]
name = "comm_messenger"
version = "0.1.0"
edition = "2021"
publish = false

[dependencies]
comm = "*"
env_logger = "0.4"
gdk = "0.7"
gio = "0.3"
glib = "0.4"
gtk = "0.3"
log = "0.3"
serde = "1"
serde_derive = "1"
serde_yaml = "0.7"
