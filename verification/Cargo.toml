[package]
name = "news_sync"
version = "0.1.0"
edition = "2021"
publish = false

[dependencies]
log = "0.4"
notify = "4.0"
rocket = "0.5"
