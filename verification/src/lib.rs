//! Core logic of the Oreo Discord bot, kept apart from the Discord and
//! database plumbing so that it can be stated and proved.

pub mod ids;
pub mod nci;
pub mod text;
pub mod string_util;
pub mod hex;
pub mod dec;
pub mod color;
pub mod error;
pub mod colors;
pub mod embed;
pub mod palette;
pub mod message;
pub mod cache;
pub mod events;
pub mod sync;
pub mod commands;
pub mod logging;
pub mod features;
pub mod settings;
