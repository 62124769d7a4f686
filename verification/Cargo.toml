[package]
name = "turso_postgres"
version = "0.1.0"
edition = "2021"
publish = false

[dependencies]
pgwire = { version = "=0.36.3", default-features = false, features = ["server-api"] }
postgres-types = "=0.2.14"
pg_query = "=6.2.1"
futures = "=0.3.34"
async-trait = "=0.1.92"
tokio = { version = "=1.54.1", features = ["rt-multi-thread", "net", "macros", "signal"] }
anyhow = "=1.0.104"
tracing = "=0.1.44"
