//! Errors reported synchronously to callers of the library.
//!
//! Failures inside background work (socket reads, timer callbacks, file
//! writes) happen after the triggering call has returned; they are handled by
//! the embedding program and never appear here.

use vstd::prelude::*;

verus! {

/// An error returned by a registry, send, parse or sink operation.
///
/// Validation failures (`InvalidAddress`, `MalformedToken`, `InvalidColumns`,
/// `InvalidSinkType`) and protocol failures (`Protocol`) leave every involved
/// value unchanged; `UnknownToken` is the lookup failure of the send path.
#[derive(Clone, Copy, PartialEq, Eq, Debug, Structural)]
pub enum Error {
    /// The listener address is not in the `a.b.c.d:port` form.
    InvalidAddress,
    /// A token string is not 1 to 8 hexadecimal digits.
    MalformedToken,
    /// The token names no entry of the registry.
    UnknownToken,
    /// A sink row does not carry the declared number or types of columns.
    InvalidColumns,
    /// The file sink's `ty` column is neither `"write"` nor `"append"`.
    InvalidSinkType,
    /// An `UPDATE` or `DELETE` was attempted against a sink table.
    Protocol,
    /// An engine handle was materialized after its session closed, or against
    /// a record of another session.
    SessionClosed,
    /// Every bounded random draw of a fresh token collided with a live entry.
    AllocationFailed,
}

impl Error {
    /// The text `message` reports for each error.
    pub open spec fn spec_message(&self) -> Seq<char> {
        match self {
            Error::InvalidAddress => "invalid listener address"@,
            Error::MalformedToken => "could not parse token"@,
            Error::UnknownToken => "unknown token"@,
            Error::InvalidColumns => "row has the wrong column count or types"@,
            Error::InvalidSinkType => "argument ty must be either 'write' or 'append'"@,
            Error::Protocol => "only INSERT and SELECT are supported on this table"@,
            Error::SessionClosed => "the engine session behind this handle is gone"@,
            Error::AllocationFailed => "could not draw a fresh connection token"@,
        }
    }

    /// A short description of the error, for the embedding program to report.
    pub fn message(&self) -> (r: &'static str)
        ensures
            r@ == self.spec_message(),
    {
        match self {
            Error::InvalidAddress => "invalid listener address",
            Error::MalformedToken => "could not parse token",
            Error::UnknownToken => "unknown token",
            Error::InvalidColumns => "row has the wrong column count or types",
            Error::InvalidSinkType => "argument ty must be either 'write' or 'append'",
            Error::Protocol => "only INSERT and SELECT are supported on this table",
            Error::SessionClosed => "the engine session behind this handle is gone",
            Error::AllocationFailed => "could not draw a fresh connection token",
        }
    }
}

} // verus!
