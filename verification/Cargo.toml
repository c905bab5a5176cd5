[package]
name = "textkit_docx"
version = "0.1.0"
edition = "2021"
publish = false

[dependencies]
xml-rs = "=0.8.29"
zip = "=4.5.0"
handlebars = "=4.3.7"
serde_json = "=1.0.151"
pulldown-cmark = "=0.8.0"
base64 = "=0.13.1"
png = "=0.16.8"
