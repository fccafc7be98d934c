//! A music queue for a chat bot: the tracks that wait, the commands that the sound
//! output has to carry out, the steps by which a track is fetched, and the texts that
//! the bot answers with.

pub mod audio_queue;
pub mod bot;
pub mod cache;
pub mod decoder;
pub mod download;
pub mod span;
pub mod systemd_utils;
pub mod tag;
pub mod text;
