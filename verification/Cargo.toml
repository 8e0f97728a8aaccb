[package]
name = "roi_calculator"
version = "0.1.0"
edition = "2021"
publish = false

[dependencies]
anyhow = "*"
chrono = "*"
dialoguer = "*"
diesel = { version = "*", features = ["sqlite"] }
dotenvy = "*"
libsqlite3-sys = { version = "*", features = ["bundled"] }
plotters = "*"
serde = { version = "*", features = ["derive"] }
tabled = "*"
thiserror = "*"
uuid = { version = "*", features = ["v4"] }
