//! Guards classifying what an inbound request carries: credentials and
//! content headers.

pub mod auth;
pub mod content;
