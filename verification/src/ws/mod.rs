//! WebSocket access: signed short-lived tokens and the shapes of the token
//! endpoints.

pub mod gateway;
pub mod routes;
pub mod token_service;
