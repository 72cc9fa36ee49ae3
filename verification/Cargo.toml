[package]
name = "gstsmith_app"
version = "0.1.0"
edition = "2021"
publish = false

[dependencies]
anyhow = "=1.0.104"
futures = "=0.3.34"
gstreamer = "=0.24.5"
# Nothing here calls kstring. gstreamer depends on it, and later patches need a newer
# compiler than the rest of this crate does.
kstring = "=2.0.2"
tokio = { version = "=1.54.1", features = ["macros", "rt", "rt-multi-thread", "signal", "time"] }
