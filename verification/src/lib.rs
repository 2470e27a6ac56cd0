//! A verified chat relay library.
//!
//! The library holds the logic of a single-endpoint HTTP relay: it frames the
//! outbound completion request for an upstream provider, classifies the
//! upstream outcome, and extracts the reply text from the provider's JSON
//! document, falling back to a fixed message when the expected field is
//! absent.  The surrounding HTTP server shell lives outside the library.

pub mod config;
pub mod encode;
pub mod json;
pub mod relay;
