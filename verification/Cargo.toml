[package]
name = "filewatcher"
version = "0.1.0"
edition = "2021"
publish = false

[dependencies]
actix-files = "0.6"
actix-rt = "2"
actix-web = { version = "4", default-features = false, features = ["macros"] }
dunce = "1"
log = "0.4"
notify-debouncer-full = "0.3"
path-slash = "0.2"
regex = "1"
tokio = { version = "1", features = ["fs", "io-util", "macros", "rt", "sync", "time"] }
urlencoding = "2"
win_partitions = "*"
