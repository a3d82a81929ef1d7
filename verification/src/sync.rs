//! Bringing the database in line with the server when the bot starts: for
//! roles, members, categories and channels, the database writes to make.
pub mod categories;
pub mod channels;
pub mod roles;
pub mod users;
