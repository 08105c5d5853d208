//! A small library behind an HTTP facade for a hosted Lightning node.
//!
//! It resolves developer credentials from environment values with a
//! Base64-or-raw fallback and a file fallback, drives the linear
//! registration/authentication handshake as an explicit state machine,
//! builds the BOLT12 offer request parameters, and renders the uniform
//! JSON response envelope for both endpoints.

pub mod b64;
pub mod credentials;
pub mod handshake;
pub mod json;
pub mod offer;
pub mod response;
