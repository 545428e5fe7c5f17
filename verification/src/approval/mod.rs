//! The approval workflow for transfers.

pub mod service;
