[package]
name = "test_server"
version = "0.1.0"
edition = "2021"
publish = false

[dependencies]
async-std = "=1.13.2"
lazy_static = "=1.5.1"
rand = "=0.8.8"
serde_json = "1"
sqlx = { version = "=0.5.13", default-features = false, features = ["runtime-async-std-rustls", "postgres", "time", "migrate"] }
# Not called: `sqlx-macros` builds only where `syn` 1 has its `derive` feature,
# and the derive of this release turns it on.
thiserror = "=1.0.38"
tide = { version = "=0.16.0", default-features = false, features = ["logger"] }
