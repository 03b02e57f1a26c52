//! The cross-thread engine handle: a copyable capability naming the host
//! engine's live connection.
//!
//! The underlying native connection is owned by the embedding program; its
//! validity cannot be enforced by the type system. The handle therefore
//! carries only the session's identity, and materializing it back into a
//! usable connection is checked against an explicit session record: a closed
//! or foreign session is refused instead of being dereferenced.

use vstd::prelude::*;
use crate::errors::Error;

verus! {

/// The session record owned by the composition root: the identity of the
/// host engine's connection and whether it is still open.
#[derive(Clone, Copy, PartialEq, Eq, Debug, Structural)]
pub struct EngineSession {
    pub id: u64,
    pub open: bool,
}

/// A copyable, cross-thread capability referencing one engine session.
/// Every copy names the same session; materialization re-checks the session
/// each time, so a handle that outlives its session yields an error, never a
/// dangling connection.
#[derive(Clone, Copy, PartialEq, Eq, Debug, Structural)]
pub struct EngineHandle {
    pub session: u64,
}

/// A re-materialized connection: an independent unit of work against the
/// session the handle named. Two materializations of the same handle are
/// independent sessions against the same engine identity.
#[derive(Clone, Copy, PartialEq, Eq, Debug, Structural)]
pub struct EngineConnection {
    pub session: u64,
}

impl EngineHandle {
    /// Derives a handle from an open session.
    pub fn from_session(s: &EngineSession) -> (h: EngineHandle)
        ensures
            h.session == s.id,
    {
        EngineHandle { session: s.id }
    }

    /// Materializes a full, independent connection on demand. Succeeds
    /// exactly when the session record is the one the handle names and is
    /// still open.
    pub fn materialize(&self, s: &EngineSession) -> (r: Result<EngineConnection, Error>)
        ensures
            r is Ok <==> (s.open && s.id == self.session),
            r matches Ok(c) ==> c.session == self.session,
            r is Err ==> r == Err::<EngineConnection, Error>(Error::SessionClosed),
    {
        if s.open && s.id == self.session {
            Ok(EngineConnection { session: self.session })
        } else {
            Err(Error::SessionClosed)
        }
    }
}

} // verus!
