[package]
name = "lldap"
version = "0.1.0"
edition = "2021"
publish = false

[dependencies]
actix-files = "=0.7.0"
actix-http = "=3.18.12"
actix-rt = "=2.15.0"
actix-server = "=2.9.8"
actix-service = "=2.0.3"
actix-web = "=4.15.0"
anyhow = "=1.0.104"
futures-util = { version = "=0.3.34", features = ["sink"] }
hmac = "=0.13.0"
ldap3_proto = "=0.8.1"
log = "=0.4.34"
native-tls = "=0.2.18"
secstr = "=0.5.1"
sha2 = "=0.11.0"
tokio = { version = "=1.53.2", features = ["net", "rt", "io-util", "macros"] }
tokio-native-tls = "=0.3.1"
tokio-stream = "=0.1.19"
tokio-util = { version = "=0.7.19", features = ["codec"] }
