//! Custom emoji and mentions as Discord writes them, and the text of cloned
//! messages.
pub mod clone;
pub mod emoji;
pub mod mention;
