//! The operations that a transport layer calls, one for each route.

pub mod data;
pub mod hypermedia;
