//! Command-line administration library for user accounts in a relational
//! control-panel store: connection configuration, credential hashing, and
//! the three user mutations (add, reset password, rename).

pub mod database;
pub mod user;
pub mod config;

