[package]
name = "ablavema"
version = "0.4.2"
edition = "2021"
publish = false

[dependencies]
versions = "*"
chrono = "0.4"
regex = "1"
serde = { version = "1", features = ["derive"] }
ron = "*"
bincode = "1"
reqwest = { version = "*", default-features = false, features = ["rustls-tls"] }
tokio = { version = "1", features = ["rt-multi-thread", "macros", "fs", "io-util"] }
select = "*"
directories-next = "*"
clap = { version = "4", features = ["cargo"] }
tar = "*"
xz2 = "*"
flate2 = "*"
bzip2 = "*"
glob = "*"
fs_extra = "*"
lazy_static = "*"
timeago = "*"
