//! Verified core of an authentication service: password hashing, token
//! issuing, pagination, error mapping, request-credential parsing, the
//! start-up bootstrap protocol, configuration and e-mail rendering.

pub mod text;
pub mod json;
pub mod models;
pub mod dto;
pub mod claims;
pub mod jwt;
pub mod password;
pub mod error;
pub mod pagination;
pub mod services;
pub mod store;
pub mod bootstrap;
pub mod extract;
pub mod config;
pub mod email;
pub mod laws;
