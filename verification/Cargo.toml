[package]
name = "runel"
version = "0.1.0"
edition = "2021"
publish = false

[dependencies]
alsa = "=0.12.1"
chrono = "=0.4.45"
daemonize = "=0.5.0"
dirs = "=7.0.0"
inotify = { version = "=0.11.5", default-features = false }
nix = { version = "=0.31.3", features = ["signal", "poll"] }
posixmq = "=1.0.0"
regex = "=1.13.1"
signal-msg = "=0.7.0"
simple-signal = "=1.1.1"
structopt = "=0.3.26"
xcb = { version = "=1.7.1", features = ["xkb", "as-raw-xcb-connection"] }
xkbcommon = { version = "=0.9.0", features = ["x11"] }
xrdb = "=0.1.1"
