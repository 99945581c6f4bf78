use vstd::prelude::*;

verus! {

/// Errors surfaced by the authentication core.
#[derive(Debug, Clone, Copy, PartialEq, Eq, Structural)]
pub enum AuthError {
    /// Malformed input, such as empty credentials.
    Validation,
    /// Wrong username or password; the cause is never told apart.
    AuthenticationFailure,
    /// The username (or session token) is already taken.
    Conflict,
    /// The store could not carry out the operation.
    Store,
    /// The password hasher failed internally.
    Hashing,
}

impl AuthError {
    /// A short, client-safe description of the error.
    pub fn message(&self) -> (r: &'static str)
        ensures
            *self == AuthError::Validation ==> r@ == "invalid input"@,
            *self == AuthError::AuthenticationFailure ==> r@ == "invalid username or password"@,
            *self == AuthError::Conflict ==> r@ == "username already taken"@,
            *self == AuthError::Store ==> r@ == "storage failure"@,
            *self == AuthError::Hashing ==> r@ == "internal error"@,
    {
        match self {
            AuthError::Validation => "invalid input",
            AuthError::AuthenticationFailure => "invalid username or password",
            AuthError::Conflict => "username already taken",
            AuthError::Store => "storage failure",
            AuthError::Hashing => "internal error",
        }
    }
}

} // verus!
