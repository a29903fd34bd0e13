use vstd::prelude::*;

verus! {

/// The field that failed format validation.
#[derive(Clone, Copy, Debug, PartialEq, Eq, Structural)]
pub enum Field {
    Username,
    Password,
}

/// The exact format rule that was violated.
#[derive(Clone, Copy, Debug, PartialEq, Eq, Structural)]
pub enum ValidationRule {
    /// The length falls outside the field's inclusive range.
    Length,
    /// The text holds a character outside `[A-Za-z0-9_]`, or no
    /// alphanumeric character at all.
    Spell,
}

/// Failure taxonomy of the engine.
///
/// Every public operation either succeeds or returns one of these classes;
/// the boundary layer renders each as the matching client-facing status.
#[derive(Clone, Copy, Debug, PartialEq, Eq, Structural)]
pub enum AuthError {
    /// Malformed username, password or email: the client's fault, always
    /// recoverable by resubmitting correct input.
    Validation(Field, ValidationRule),
    /// Wrong password, invalid or expired token, or wrong second-factor
    /// code; deliberately does not reveal which check failed.
    WrongCredentials,
    /// The operation collides with existing state: a second factor already
    /// enrolled, a recovery request already pending, or user data taken.
    Conflict,
    /// The session, record or user looked up is absent (or has expired).
    NotFound,
    /// A storage or remote collaborator failed; never reported as success.
    Upstream,
}

} // verus!
