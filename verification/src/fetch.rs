//! Failure classification and the one-shot transient-retry policy that every
//! remote fetch in the system goes through: a transient failure (connection
//! establishment, generic I/O) is retried exactly once; anything else is
//! surfaced immediately.

use vstd::prelude::*;

verus! {

/// The failure classes a single GET attempt can end in.
#[derive(Debug, Clone, Copy, PartialEq, Eq, Structural)]
pub enum FetchFailure {
    /// The connection could not be established.
    ConnectionFailed,
    /// A generic I/O failure during the request.
    Io,
    /// The server answered with an error status code.
    HttpStatus(u16),
    /// Any other failure class, including a malformed response.
    Other,
}

impl FetchFailure {
    /// Transient failures are presumed likely to succeed on immediate retry;
    /// everything else (HTTP error status, parse failures, the rest) is not.
    pub open spec fn is_transient(self) -> bool {
        self is ConnectionFailed || self is Io
    }

    pub fn transient(&self) -> (r: bool)
        ensures
            r == self.is_transient(),
    {
        match self {
            FetchFailure::ConnectionFailed => true,
            FetchFailure::Io => true,
            FetchFailure::HttpStatus(_) => false,
            FetchFailure::Other => false,
        }
    }
}

/// Whether the retry policy asks for the single retry after a first attempt:
/// it does exactly when the attempt failed with a transient failure.
pub fn retry_decision<T>(first: &Result<T, FetchFailure>) -> (r: bool)
    ensures
        r <==> (first is Err && first->Err_0.is_transient()),
{
    match first {
        Result::Err(e) => e.transient(),
        Result::Ok(_) => false,
    }
}

/// The whole retry discipline over a supply of attempt outcomes: the first
/// outcome is accepted unless it is a transient failure, in which case the
/// second — and never a third — is taken as final.
pub fn fetch_with_retry<'a, T>(attempts: &'a Vec<Result<T, FetchFailure>>) -> (r: (
    usize,
    &'a Result<T, FetchFailure>,
))
    requires
        attempts@.len() >= 2,
    ensures
        1 <= r.0 <= 2,
        r.0 == 2 <==> (attempts@[0] is Err && attempts@[0]->Err_0.is_transient()),
        *r.1 == attempts@[r.0 - 1],
{
    let first = &attempts[0];
    if retry_decision(first) {
        (2, &attempts[1])
    } else {
        (1, first)
    }
}

/// The enumeration mode's cross-endpoint fallback: the primary endpoint's
/// outcome stands if it succeeded; otherwise the secondary's stands, whatever
/// it is.
pub fn endpoint_fallback<'a, T>(
    primary: &'a Result<T, FetchFailure>,
    secondary: &'a Result<T, FetchFailure>,
) -> (r: &'a Result<T, FetchFailure>)
    ensures
        primary is Ok ==> r == primary,
        primary is Err ==> r == secondary,
{
    if primary.is_ok() {
        primary
    } else {
        secondary
    }
}

} // verus!
