//! Verified core of a REST batch client for a device-management server.
//!
//! The library expands one logical command (an HTTP verb, a URL template and
//! an argument payload) into the concrete sub-requests of a batch: it expands
//! identifier lists and ranges, materializes one URL per sub-request,
//! normalizes the server address, tracks the bearer token's validity and
//! classifies each sub-request's outcome. The surrounding I/O (argument
//! parsing, the HTTP calls themselves, output formatting) stays outside.

pub mod args;
pub mod endpoints;
pub mod service;
pub mod session;
pub mod text;
pub mod token;
