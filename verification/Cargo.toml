[package]
name = "pam_args"
version = "0.1.0"
edition = "2021"

[dependencies]
log = "0.4"
env_logger = "*"
syslog = "*"
serde = "1"
