[package]
name = "ogcapi_features"
version = "0.1.0"
edition = "2021"
publish = false

[dependencies]
serde_json = "1"
geojson = "=0.24.2"
serde = { version = "1", features = ["derive"] }
axum = "0.8"
tokio = { version = "1", features = ["rt-multi-thread", "macros", "net"] }
sqlx = { version = "0.8", default-features = false, features = ["postgres", "runtime-tokio"] }
toml = "*"
clap = { version = "4", features = ["derive"] }
dotenvy = "*"
tracing-subscriber = "*"
utoipa = { version = "*", features = ["axum_extras"] }
async-trait = "*"
