[package]
name = "mbta_countdown"
version = "0.1.0"
edition = "2021"
publish = false

[dependencies]
chrono = "*"
clap = "*"
embedded-hal = "0.2"
ht16k33 = "0.4"
rayon = "*"
reqwest = { version = "*", default-features = false, features = ["blocking", "json"] }
rppal = { version = "*", features = ["hal"] }
scraper = "*"
serde_json = "*"
termion = "*"
tokio = { version = "*", features = ["macros", "rt-multi-thread", "time"] }
