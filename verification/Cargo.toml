[package]
name = "girl_technology"
version = "0.1.0"
edition = "2021"
publish = false

[dependencies]
url = "=2.5.8"
axum = { version = "=0.7.9", features = ["macros"] }
diesel = { version = "=2.2.12", features = ["postgres_backend"] }
diesel-async = { version = "=0.5.2", features = ["postgres", "deadpool"] }
dotenvy = "=0.15.7"
# diesel-async joins futures with a macro that sits behind this feature and
# that none of the other crates switches on.
futures-util = { version = "0.3", features = ["async-await-macro"] }
reqwest = { version = "=0.12.28", default-features = false, features = ["rustls-tls"] }
serde = { version = "1", features = ["derive"] }
tera = "=1.20.1"
tokio = { version = "1", features = ["full"] }
tower-http = { version = "=0.6.11", features = ["fs", "trace"] }
tracing-subscriber = { version = "=0.3.23", features = ["env-filter"] }

[dev-dependencies]
regex = "1"
