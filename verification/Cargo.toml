[package]
name = "matrix_ids"
version = "0.1.0"
edition = "2021"
publish = false

[dependencies]
smallvec = "1"
wildmatch = "2"
serde = { version = "1", features = ["derive"] }
serde_json = "1"
syn = { version = "2", features = ["full"] }
quote = "1"
proc-macro2 = "1"
http = "1"
bytes = "1"
