//! Reading air-conditioner units from the Toshiba cloud service: the requests to
//! send, the meaning of the login response, the one session that all requests
//! share, and the decoding of a unit's state payload.

pub mod config;
pub mod toshiba_api;
