//! Error taxonomy: validation failures, transport failures, and the
//! per-unit outcome of the two-phase account transaction.

use vstd::prelude::*;

verus! {

/// A referral code that could not be validated. Fatal; no network call is
/// attempted for such an input.
#[derive(Clone, Copy, Debug, PartialEq, Eq, Structural)]
pub enum ValidationError {
    InvalidCode,
}

/// A failure of one remote call. Always fatal to the affected unit of work;
/// nothing is retried.
#[derive(Clone, Copy, Debug, PartialEq, Eq, Structural)]
pub enum TransportError {
    /// The creation response carried no bearer-token header.
    AuthTokenMissing,
    /// A response body could not be decoded.
    MalformedResponse,
    /// The server answered with a non-2xx status.
    RemoteRejected,
    /// The redirect response carried no `Location` header.
    MissingRedirect,
    /// The `Location` header was not a URL or lacked the referrer identity.
    MalformedRedirect,
}

/// The terminal state of one unit of work.
#[derive(Clone, Copy, Debug, PartialEq, Eq, Structural)]
pub enum UnitOutcome {
    /// Both remote calls succeeded: the account exists and is configured.
    Done,
    /// The creation call failed: no remote side effect.
    CreateFailed,
    /// Creation succeeded but configuration failed: the account is orphaned,
    /// a remote side effect that cannot be rolled back.
    ConfigureFailed,
}

} // verus!
