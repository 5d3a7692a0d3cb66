[package]
name = "kafkatopic_splitter"
version = "0.1.0"
edition = "2021"
publish = false

[dependencies]
log = "0.4"
rdkafka = "0.36"
serde_json = "1"
simple_logger = "4"
tokio = { version = "1", features = ["macros", "rt"] }
