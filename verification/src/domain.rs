//! The shop's entities and the rules that decide which of them are valid.
pub mod user;
pub mod order;
pub mod window;
