[package]
name = "bitbankcc"
version = "0.1.0"
edition = "2021"
publish = false

[dependencies]
# What the library calls.
hex = "=0.4.3"
hmac = "=0.11.0"
sha2 = "=0.9.9"
http = "=0.2.12"
# What only app/ calls. serde_json reads the body of an answer, with the
# digits of every number kept as they were written.
reqwest = { version = "=0.11.27", features = ["json"] }
tokio = { version = "=1.54.1", features = ["rt-multi-thread"] }
serde_json = { version = "=1.0.154", features = ["arbitrary_precision"] }
