[package]
name = "ink_todo_list"
version = "0.1.0"
edition = "2021"
publish = false

[dependencies]
ink = { version = "5", default-features = false, features = ["std"] }
