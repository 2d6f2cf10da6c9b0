//! Request-level operations on the stores, free of transport concerns: an
//! HTTP front end authorizes each request, converts it to plain values, and
//! calls in here.

pub mod auth;
pub mod link;
pub mod upload;
