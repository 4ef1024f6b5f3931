[package]
name = "api_mini_bank"
version = "0.1.0"
edition = "2021"
publish = false

[dependencies]
bcrypt = "=0.19.3"
jsonwebtoken = "=9.3.1"
serde_json = { version = "=1.0.154", features = ["preserve_order"] }
serde = { version = "=1.0.229", features = ["derive"] }
chrono = { version = "=0.4.45", default-features = false, features = ["clock", "std", "serde"] }
uuid = { version = "=1.29.0", features = ["v4", "serde"] }
thiserror = "=2.0.21"
actix-web = { version = "=4.18.1", default-features = false, features = ["macros"] }
actix-files = "0.6"
futures-util = "=0.3.34"
sqlx = { version = "=0.8.6", default-features = false, features = ["runtime-tokio", "postgres", "uuid", "chrono", "macros", "migrate"] }
rust_decimal = { version = "1", default-features = false, features = ["serde", "std"] }
shuttle-actix-web = "*"
shuttle-runtime = { version = "*", default-features = false }
shuttle-shared-db = { version = "*", features = ["postgres", "sqlx"] }

[dev-dependencies]
regex = "=1.13.1"
