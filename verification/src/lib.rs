//! A small ticket-listing service, verified with Verus.
//!
//! The library holds everything the service decides and produces: the fixed
//! ticket records, the exact JSON text of each endpoint's body, and the
//! dispatch from request method and path to a response. The binary around it
//! only moves bytes between a socket and these functions.

pub mod json;
pub mod routing;
pub mod strutil;
pub mod ticket;
