//! A client for a transactional email delivery API.
//!
//! The library builds the outbound request (target URL, authorization
//! header, JSON payload) for one email submission, and classifies the
//! outcome of the network round trip. The round trip itself is I/O and is
//! performed by the surrounding process; this crate states and verifies
//! everything that can be decided before the request leaves and after the
//! response arrives.

pub mod domain;
pub mod email_client;
pub mod secret;
pub mod text;
pub mod wire;
