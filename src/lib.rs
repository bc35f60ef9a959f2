//! Chaum–Pedersen proof of knowledge of a discrete logarithm, for
//! password-less authentication: group parameters, the protocol's typed
//! transitions, and the verifier's session logic.
//!
//! - [`material`]: group parameters and their generator.
//! - [`protocol`]: the exchange as typed states and transitions.
//! - [`auth`]: the verifier's registrations, challenges and checks.
//! - [`service`]: per-user group parameters, generated on first request.
//! - [`codec`]: the radix-16 text form of group parameters.
//! - [`laws`]: completeness and soundness of the exchange, and the storage rules.
pub mod arith;
pub mod auth;
pub mod codec;
pub mod entropy;
pub mod error;
pub mod laws;
pub mod material;
pub mod protocol;
pub mod service;
pub mod store;
