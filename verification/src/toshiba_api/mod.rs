//! The remote service: its endpoints, requests and responses.

pub mod constants;
pub mod hex;
pub mod login;
pub mod mapping;
pub mod request;
pub mod session;
pub mod state;
pub mod status;
