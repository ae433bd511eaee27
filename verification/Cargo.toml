[package]
name = "ao_chat_client"
version = "0.1.0"
edition = "2021"
publish = false

[dependencies]
bimap = "=0.6.3"
crossterm = { version = "0.25", features = ["event-stream"] }
directories = "4"
futures-util = "0.3"
tokio = { version = "1", features = ["macros", "rt-multi-thread", "sync"] }
tui = "0.19"
