[package]
name = "oauth"
version = "0.1.0"
edition = "2021"
publish = false

[dependencies]
regex = "1"
serde = { version = "1", features = ["derive"] }
serde_json = "1"
actix-web = { version = "4", default-features = false, features = ["macros"] }
reqwest = { version = "0.12", default-features = false, features = ["blocking", "json"] }
thiserror = "1"
dotenv = "0.15"
utoipa = { version = "*", features = ["actix_extras"] }
utoipa-swagger-ui = { version = "*", features = ["actix-web", "vendored"] }
