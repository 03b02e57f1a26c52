//! The token registry: the process-wide mapping from connection tokens to
//! live connection resources.
//!
//! The embedding program owns one `Registry` behind a multiple-reader /
//! single-writer lock and holds the writer side across each check-then-insert
//! window, as the allocation contract requires. Entries are added on accept
//! and removed when the connection's reader loop ends.

use vstd::prelude::*;
use std::collections::HashMap;
use rand::Rng;
use crate::errors::Error;
use crate::tcp::TcpConnection;
use crate::token::ConnectionToken;

verus! {

broadcast use vstd::std_specs::hash::group_hash_axioms;

/// How many random draws `allocate` makes before giving up. Collisions among
/// 32-bit tokens are rare until the registry is nearly full, so the bound is
/// never reached in practice; it exists so that allocation provably finishes.
pub const MAX_ALLOCATE_ATTEMPTS: usize = 64;

/// One registry slot: reserved by `allocate`, or holding an open connection.
#[derive(Debug)]
pub enum ConnectionSlot {
    /// The token is assigned but its connection is not yet attached.
    Pending,
    /// The token names this open connection.
    Open(TcpConnection),
}

/// The token registry. Its view is the mapping from numeric token values to
/// slots.
#[derive(Debug)]
pub struct Registry {
    connections: HashMap<u32, ConnectionSlot>,
}

impl View for Registry {
    type V = Map<u32, ConnectionSlot>;

    closed spec fn view(&self) -> Map<u32, ConnectionSlot> {
        self.connections@
    }
}

/// Relies on `rand::thread_rng` and `rand::Rng::gen`: draws one uniformly
/// random 32-bit value. Nothing is assumed about which value comes back.
#[verifier::external_body]
fn random_u32() -> u32 {
    rand::thread_rng().gen()
}

impl Registry {
    /// An empty registry.
    pub fn new() -> (r: Registry)
        ensures
            r@ == Map::<u32, ConnectionSlot>::empty(),
    {
        Registry { connections: HashMap::new() }
    }

    /// Whether the token names an entry (pending or open).
    pub fn contains(&self, token: ConnectionToken) -> (b: bool)
        ensures
            b == self@.contains_key(token.spec_value()),
    {
        self.connections.contains_key(&token.value())
    }

    /// The exclusive check-then-insert step of allocation: reserves
    /// `candidate` exactly when no entry holds it yet, and otherwise leaves
    /// the registry unchanged. The caller must hold exclusive access to the
    /// registry for this whole call, so that no other allocator can pick the
    /// same token in between.
    pub fn try_claim(&mut self, candidate: ConnectionToken) -> (claimed: bool)
        ensures
            claimed <==> !old(self)@.contains_key(candidate.spec_value()),
            claimed ==> final(self)@ == old(self)@.insert(
                candidate.spec_value(),
                ConnectionSlot::Pending,
            ),
            !claimed ==> final(self)@ == old(self)@,
    {
        if self.connections.contains_key(&candidate.value()) {
            false
        } else {
            self.connections.insert(candidate.value(), ConnectionSlot::Pending);
            true
        }
    }

    /// Draws random tokens until one not present in the registry is found,
    /// inserts a pending entry for it, and returns it. A returned token is
    /// never equal to any token currently in the registry at the moment of
    /// assignment. Draws are bounded by `MAX_ALLOCATE_ATTEMPTS`; if every
    /// draw collides, the registry is left unchanged and allocation fails —
    /// which an empty registry can never make happen, since no draw collides
    /// with nothing.
    pub fn allocate(&mut self) -> (r: Result<ConnectionToken, Error>)
        ensures
            r matches Ok(t) ==> {
                &&& !old(self)@.contains_key(t.spec_value())
                &&& final(self)@ == old(self)@.insert(t.spec_value(), ConnectionSlot::Pending)
            },
            r is Err ==> final(self)@ == old(self)@ && r == Err::<ConnectionToken, Error>(
                Error::AllocationFailed,
            ),
            old(self)@ == Map::<u32, ConnectionSlot>::empty() ==> r is Ok,
    {
        let mut attempts: usize = 0;
        while attempts < MAX_ALLOCATE_ATTEMPTS
            invariant
                self@ == old(self)@,
                old(self)@ == Map::<u32, ConnectionSlot>::empty() ==> attempts == 0,
            decreases MAX_ALLOCATE_ATTEMPTS - attempts,
        {
            let candidate = ConnectionToken::new(random_u32());
            if self.try_claim(candidate) {
                return Ok(candidate);
            }
            attempts = attempts + 1;
        }
        Err(Error::AllocationFailed)
    }

    /// Attaches an accepted connection to its token: the slot becomes open.
    /// Overwrites whatever the token named before, as a map insert does.
    pub fn insert(&mut self, token: ConnectionToken, connection: TcpConnection)
        ensures
            final(self)@ == old(self)@.insert(token.spec_value(), ConnectionSlot::Open(connection)),
    {
        self.connections.insert(token.value(), ConnectionSlot::Open(connection));
    }

    /// Drops a token's entry, if any. Called when the connection's reader
    /// loop ends, so that closed connections do not accumulate and a later
    /// send to the token fails at lookup rather than at the stream write.
    pub fn remove(&mut self, token: ConnectionToken)
        ensures
            final(self)@ == old(self)@.remove(token.spec_value()),
    {
        self.connections.remove(&token.value());
    }

    /// Looks a token up for the send path. Succeeds exactly when the token
    /// names an open connection; a never-allocated or still-pending token is
    /// an unknown-token error.
    pub fn lookup(&self, token: ConnectionToken) -> (r: Result<&TcpConnection, Error>)
        ensures
            r is Ok <==> (self@.contains_key(token.spec_value())
                && self@[token.spec_value()] is Open),
            r matches Ok(c) ==> self@[token.spec_value()] == ConnectionSlot::Open(*c),
            r is Err ==> r == Err::<&TcpConnection, Error>(Error::UnknownToken),
    {
        match self.connections.get(&token.value()) {
            Some(slot) => match slot {
                ConnectionSlot::Open(c) => Ok(c),
                ConnectionSlot::Pending => Err(Error::UnknownToken),
            },
            None => Err(Error::UnknownToken),
        }
    }
}

} // verus!
