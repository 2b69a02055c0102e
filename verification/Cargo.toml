[package]
name = "sbom_licenses"
version = "0.1.0"
edition = "2021"
publish = false

[dependencies]
uuid = { version = "=1.29.0", features = ["v5"] }
tar = { version = "=0.4.46", default-features = false }
flate2 = "=1.1.10"
spdx = { version = "=0.10.9", features = ["text"] }
sea-orm = { version = "=1.1.20", default-features = false, features = ["macros", "with-uuid"] }
sea-orm-migration = { version = "=1.1.20", default-features = false }
actix-web = { version = "=4.18.1", default-features = false, features = ["macros"] }
utoipa = { version = "=5.5.0", features = ["actix_extras"] }
utoipa-actix-web = "=0.1.2"
async-trait = "=0.1.92"
tracing = "=0.1.44"
serde = { version = "=1.0.229", features = ["derive"] }

[dev-dependencies]
csv = "=1.4.0"
