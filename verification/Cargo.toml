[package]
name = "better_auth_rs_core"
version = "0.1.0"
edition = "2021"
publish = false

[dependencies]
async-trait = "*"
http = "*"
rand = "*"
serde = { version = "*", features = ["derive"] }
serde_json = "*"
sqlx = { version = "*", default-features = false, features = ["postgres", "runtime-tokio", "time", "uuid", "json"] }
thiserror = "*"
time = { version = "*", features = ["serde", "formatting", "parsing"] }
tokio = { version = "*", features = ["macros", "rt-multi-thread"] }
url = "*"
uuid = { version = "*", features = ["v4"] }
