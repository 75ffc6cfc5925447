use vstd::prelude::*;

verus! {

/// Why a request was turned down.
#[derive(Clone, Copy, Debug, PartialEq, Eq, Hash, Structural)]
pub enum ApiError {
    /// Unknown user, wrong password, or a refresh token that is not the
    /// current one of any account. The cause is deliberately not told apart.
    NotAuthorized,
    /// A collaborator (the tables, the operating system's randomness source)
    /// failed to do its part.
    StorageFailure,
}

} // verus!
