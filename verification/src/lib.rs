//! Validation rules, error reports and session protocols of the smart
//! window shop: user accounts, orders and window settings.
pub mod text;
pub mod clock;
pub mod ids;
pub mod domain;
pub mod api;
pub mod jwt;
pub mod services;
pub mod hashing;
pub mod client;
