//! What can go wrong between a request and its meaning.

use vstd::prelude::*;

verus! {

/// A call to a provider that did not end well: the HTTP status it was refused
/// with, or no status where no answer came at all.
#[derive(Copy, Clone, Debug, PartialEq, Eq, Structural)]
pub struct Failure {
    pub status: Option<u16>,
}

impl Failure {
    /// Whether the provider turned the call down for its credentials: status
    /// 401 or 403.
    pub open spec fn denied(self) -> bool {
        self.status == Some(401u16) || self.status == Some(403u16)
    }
}

/// Why an operation on a provider gave no result.
#[derive(Copy, Clone, Debug, PartialEq, Eq, Structural)]
#[non_exhaustive]
pub enum Error {
    /// The provider answered, but the answer lacks what was asked for.
    BadResponse,
    /// The call itself failed.
    Reqwest(Failure),
}

} // verus!
