[package]
name = "axum_template"
version = "0.1.0"
edition = "2021"
publish = false

[dependencies]
sha2 = "=0.10.9"
hex = "=0.4.3"
uuid = { version = "=1.29.1", features = ["v4", "serde"] }
serde = { version = "=1.0.229", features = ["derive"] }
axum = "=0.8.9"
tokio = { version = "=1.54.1", features = ["macros", "rt-multi-thread", "net"] }
sqlx = { version = "=0.8.6", default-features = false, features = ["postgres", "runtime-tokio", "uuid", "macros"] }
http = "=1.5.0"
tower = "=0.5.3"
tower-http = { version = "=0.6.11", features = ["cors"] }
utoipa = { version = "=5.5.0", features = ["axum_extras", "uuid"] }
utoipa-swagger-ui = { version = "=9.0.2", features = ["axum", "vendored"] }
dotenv = "=0.15.0"
thiserror = "=2.0.21"
jsonwebtoken = "=9.3.1"
enum-iterator = "=2.3.0"
