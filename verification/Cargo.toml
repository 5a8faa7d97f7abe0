[package]
name = "rsvp"
version = "0.1.0"
edition = "2021"
publish = false

[dependencies]
diesel = { version = "2", features = ["postgres"] }
dotenvy = "0.15"
rocket = { version = "0.5", features = ["json"] }
