[package]
name = "nclogin"
version = "0.1.0"
edition = "2021"
publish = false

[dependencies]
libc = "*"
nix = "*"
pam-sys = "*"
serde = { version = "*", features = ["derive"] }
toml = "*"
chrono = "*"
sysinfo = "0.29"
gettext-rs = "*"
ncursesw = "*"
