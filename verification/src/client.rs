//! The browser client's decisions: which form input it sends, and what it
//! shows for each answer of the server.
pub mod auth;
pub mod dashboard;
pub mod login;
pub mod orders;
pub mod register;
