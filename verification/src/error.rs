//! The single flat failure value that every fallible operation of the
//! library returns.

use vstd::prelude::*;

verus! {

/// One failure value for the whole library.
///
/// Validation failures are raised before any builder state is mutated;
/// `NotLoggedIn` is raised before any request is prepared.
#[derive(Clone, Copy, Debug, PartialEq, Eq, Structural)]
pub enum MalError {
    /// The remote service answered with a non-2xx HTTP status.
    RequestFailed(u16),
    /// A write operation was attempted while the stored token was empty.
    NotLoggedIn,
    /// A score outside 0..=10 was handed to a setter.
    ScoreOutOfRange,
    /// A priority outside 0..=2 was handed to a setter.
    PriorityOutOfRange,
    /// A rewatch value outside 0..=5 was handed to a setter.
    RewatchValueOutOfRange,
    /// A string that should have been a URL could not be parsed as one.
    UrlNotParsable,
    /// A URL was parsed, but no path segment held a numeric identifier.
    NoIdInUrl,
    /// The login flow's wait for the browser redirect reached the
    /// caller's deadline before a code arrived.
    AuthorizationTimedOut,
}

impl MalError {
    /// The human-readable description of each failure.
    pub open spec fn message_spec(&self) -> Seq<char> {
        match self {
            MalError::RequestFailed(_) => "Request failed with an error status"@,
            MalError::NotLoggedIn => "User is not logged in"@,
            MalError::ScoreOutOfRange => "Score has to be 0-10"@,
            MalError::PriorityOutOfRange => "Priority has to be 0-2"@,
            MalError::RewatchValueOutOfRange => "rewatch_value has to be 0-5"@,
            MalError::UrlNotParsable => "URL could not be parsed"@,
            MalError::NoIdInUrl => "URL sent contains no ID path"@,
            MalError::AuthorizationTimedOut => "Authorization timed out"@,
        }
    }

    /// A human-readable description of the failure.
    pub fn message(&self) -> (r: &'static str)
        ensures
            r@ == self.message_spec(),
    {
        match self {
            MalError::RequestFailed(_) => "Request failed with an error status",
            MalError::NotLoggedIn => "User is not logged in",
            MalError::ScoreOutOfRange => "Score has to be 0-10",
            MalError::PriorityOutOfRange => "Priority has to be 0-2",
            MalError::RewatchValueOutOfRange => "rewatch_value has to be 0-5",
            MalError::UrlNotParsable => "URL could not be parsed",
            MalError::NoIdInUrl => "URL sent contains no ID path",
            MalError::AuthorizationTimedOut => "Authorization timed out",
        }
    }
}

} // verus!
