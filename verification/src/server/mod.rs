//! The teacher server's own rules: its protocol with the agents, request
//! validation, imports and exports.
pub mod base64;
pub mod protocol;
pub mod export;
pub mod import;
pub mod requests;
pub mod settings;
pub mod xlsx;
