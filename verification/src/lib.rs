//! A social-graph service core: identities, posts, likes and follows, kept
//! consistent with their aggregate counters, and the feed derived from them.
//!
//! - [`store`] holds the four tables and their operations. Each operation
//!   either commits in full or leaves the store as it was.
//! - [`service`] wraps the operations as a caller meets them: validation,
//!   the caller's identity, status codes and the response envelope.
//! - [`auth`] covers password hashes, token claims and the reading of an
//!   `Authorization` header; [`validation`] the format rules of requests.
//! - [`models`] and [`error`] are the shapes that go in and out.
//! - [`laws`] states what holds of the store across operations, and
//!   [`counting`] what the laws and the operations need about counts.

pub mod auth;
pub mod counting;
pub mod error;
pub mod laws;
pub mod models;
pub mod service;
pub mod store;
pub mod validation;
