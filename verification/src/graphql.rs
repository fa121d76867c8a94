//! The account surface: the data a user submits and the checks it passes.

pub mod user;
