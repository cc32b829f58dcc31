[package]
name = "tonic_lnd"
version = "0.5.0"
edition = "2021"
publish = false

[dependencies]
hex = "0.4.3"
rustls = { version = "0.19.0", features = ["dangerous_configuration"] }
rustls-pemfile = "1.0.0"
tokio = { version = "1.7.1", features = ["fs"] }
tonic = { version = "0.6.2", features = ["transport", "tls"] }
webpki = "0.21.3"
