[package]
name = "further_ng"
version = "0.1.0"
edition = "2021"
rust-version = "1.95"
publish = false

[dependencies]
clap = { version = "=4.6.7", features = ["derive"] }
dptree = "=0.5.1"
env_logger = "=0.11.11"
hex = "=0.4.3"
id3 = "=1.17.2"
libsystemd = "=0.7.2"
log = "=0.4.35"
# The sound of a video is extracted as MP3: no other format has to be decoded.
rodio = { version = "=0.21.1", default-features = false, features = ["mp3"] }
sha3 = "=0.10.9"
# Nothing here names it: the later 0.1.2, which teloxide admits too, needs a newer compiler.
takecell = "=0.1.1"
teloxide = { version = "=0.17.0", features = ["macros"] }
tokio = { version = "=1.54.1", features = ["full"] }
yt-dlp = "=1.3.4"
