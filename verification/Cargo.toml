[package]
name = "tellonym"
version = "0.1.0"
edition = "2021"
publish = false

[dependencies]
bcrypt = "0.13"
jwt = "0.16"
hmac = "0.12"
sha2 = "0.10"
chrono = "0.4"
serde = { version = "1", features = ["derive"] }
serde_json = "1"
rocket = { version = "0.5", features = ["json"] }
sea-orm = { version = "0.10", default-features = false, features = ["macros", "with-chrono", "with-json"] }
sea-orm-rocket = "0.5"
sea-orm-migration = { version = "0.10", default-features = false }
async-trait = "0.1"
dotenv_codegen = "0.15"
