[package]
name = "pdf_thumb"
version = "0.1.0"
edition = "2021"
publish = false

[dependencies]
thiserror = "=2.0.21"

[dependencies.windows]
version = "=0.58.0"
features = ["Data_Pdf", "Foundation", "Storage", "Storage_Streams"]
