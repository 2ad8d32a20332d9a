[package]
name = "doc_ingest"
version = "0.1.0"
edition = "2021"
publish = false

[dependencies]
sha2 = "=0.11.1"
hex = "=0.4.3"
whatlang = "=0.18.0"
chrono = "=0.4.45"
glob = "=0.2.11"
postgres = { version = "=0.19.14", features = ["with-chrono-0_4"] }
poppler = "=0.6.0"
tesseract = "=0.15.2"
fwatcher = "=0.4.2"
serde = { version = "=1.0.229", features = ["derive"] }
serde_derive = "=1.0.229"
serde_yaml = "=0.9.34"
log = "=0.4.34"
ansi_term = "=0.12.1"

[dev-dependencies]
regex = "=1.13.1"
