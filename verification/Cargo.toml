[package]
name = "llvm_codegen_utils_core"
version = "0.1.0"
edition = "2021"
publish = false

[dependencies]
itertools = "*"
prettyplease = "*"
quasiquote = "*"
quote = "*"
syn = { version = "*", features = ["full"] }
