//! Typed client for the Ruddr workspace API: validated scalar values,
//! credential and header handling, request URLs, query strings, and the
//! status-and-decode step of every read.
pub mod error;
pub mod interface;
pub mod model;
pub mod text;
pub mod client;
