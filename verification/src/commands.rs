//! What the bot's commands decide: which inputs they refuse and with which
//! error, what they change and what they answer. Sending, fetching and
//! storing are left to the caller, which hands in what it looked up.
pub mod chat;
pub mod role;
pub mod server;
pub mod settings;
pub mod failure;
