[package]
name = "school_auth"
version = "0.1.0"
edition = "2021"
publish = false

[dependencies]
actix-web = { version = "=4.18.1", default-features = false, features = ["macros"] }
bcrypt = "=0.15.1"
chrono = { version = "=0.4.45", features = ["serde"] }
diesel = { version = "=2.2.12", default-features = false, features = ["postgres_backend", "uuid", "chrono"] }
diesel-async = { version = "=0.5.2", features = ["postgres", "bb8"] }
futures-util = "=0.3.34"
jsonwebtoken = "=9.3.1"
serde = { version = "=1.0.229", features = ["derive"] }
serde_json = "=1.0.154"
uuid = { version = "=1.29.0", features = ["v4", "serde"] }
