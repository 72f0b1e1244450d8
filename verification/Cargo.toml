[package]
name = "deskhelp"
version = "0.1.0"
edition = "2021"
publish = false

[dependencies]
anyhow = "1"
async-openai = "0.26"
dotenvy = "0.15"
futures = "0.3"
poise = "0.6"
rand = "0.8"
serenity = "0.12"
tiktoken-rs = "0.6"
time = { version = "0.3", features = ["formatting", "macros"] }
tokio = { version = "1", features = ["macros", "rt-multi-thread"] }
