use vstd::prelude::*;

verus! {

/// Why a mutating request was refused. The three kinds are mutually
/// exclusive classifications of one decision: no credential at all, a
/// credential that does not grant the namespace (or fails verification),
/// and a credential that cannot be parsed at the transport level.
#[derive(Debug, Clone, Ord, PartialOrd, Eq, PartialEq, Hash)]
pub enum AuthError {
    Unauthenticated,
    Unauthorized,
    Malformed,
}

impl AuthError {
    /// A short rendering of the kind, for the serving layer's messages.
    pub fn as_str(&self) -> (r: &'static str)
        ensures
            *self == AuthError::Unauthenticated ==> r@ == "Unauthenticated"@,
            *self == AuthError::Unauthorized ==> r@ == "Unauthorized"@,
            *self == AuthError::Malformed ==> r@ == "Malformed auth header"@,
    {
        match self {
            AuthError::Unauthenticated => "Unauthenticated",
            AuthError::Unauthorized => "Unauthorized",
            AuthError::Malformed => "Malformed auth header",
        }
    }
}

} // verus!
