//! Demo bank: accounts, transfers and per-user transaction views.

pub mod db;
pub mod models;
