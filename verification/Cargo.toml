[package]
name = "pgt_completions"
version = "0.1.0"
edition = "2021"
publish = false

[dependencies]
bpaf = "*"
oxc_resolver = "*"
serde_json = "1"
sqlx = { version = "*", default-features = false, features = ["postgres", "runtime-tokio"] }
tree-sitter = "*"
