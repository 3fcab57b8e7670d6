[package]
name = "notion-to-jarkup"
version = "0.1.0"
edition = "2021"
publish = false

[dependencies]
async-recursion = "*"
futures = "*"
html-meta-scraper = "*"
jarkup-rs = "*"
notionrs = "*"
notionrs_types = "*"
reqwest = "*"
thiserror = "*"
url = "*"
