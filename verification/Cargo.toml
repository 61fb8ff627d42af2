[package]
name = "doctext"
version = "0.1.0"
edition = "2021"
publish = false

[dependencies]
docx-rs = "*"
infer = "*"
leptonica-plumbing = "*"
lopdf = "*"
mimalloc = "*"
scheduler = "*"
serde = { version = "1", features = ["derive"] }
serde_json = "1"
tesseract-plumbing = "*"
tesseract-sys = "*"
