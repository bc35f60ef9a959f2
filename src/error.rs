//! The failures that the library reports to its callers.
use vstd::prelude::*;

verus! {

/// Why an operation could not be carried out.
///
/// A proof that does not verify is not an error: it is the ordinary
/// `Failed` outcome of verification.
#[derive(Debug, Clone, Copy, PartialEq, Eq, Structural)]
pub enum ProtocolError {
    /// The group parameters are unusable (an order is not prime, `q == p`,
    /// or a value is out of range).
    InvalidParameters,
    /// The search for generators used up its budget.
    GenerationTimeout,
    /// No group parameters are known for the user.
    MaterialNotFound,
    /// The user has not registered.
    UserNotFound,
    /// No open challenge has this identifier.
    ChallengeNotFound,
    /// A numeric input is malformed.
    InvalidArgument,
}

} // verus!
