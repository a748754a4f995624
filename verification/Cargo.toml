[package]
name = "twc"
version = "0.1.0"
edition = "2021"
publish = false

[dependencies]
chrono = "0.4"
dirs = "*"
fs_extra = "1"
humansize = "2"
serde = { version = "1", features = ["derive"] }
termion = "1.5"
toml = "*"
tui = { version = "0.19", default-features = false, features = ["termion"] }
tui-input = { version = "*", default-features = false }
tuirealm = "1.9"
