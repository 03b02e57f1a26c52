//! Token-addressed connection registry and push-triggered table sinks for a
//! host data engine.
//!
//! The library holds the decision logic of the subsystem: random connection
//! tokens and their hexadecimal rendering, the token registry, the rows
//! written for connect/data events, the outbound send lookup, and the generic
//! event-sink abstraction with its Timer and file-write instances. All I/O
//! (sockets, threads, files, the host engine itself) is performed by the
//! embedding program, which hands plain values in and carries the returned
//! actions out.

use vstd::prelude::*;

pub mod addr;
pub mod engine;
pub mod errors;
pub mod registry;
pub mod table_fn;
pub mod tcp;
pub mod timer;
pub mod token;
pub mod value;
pub mod write_to_file;

verus! {

} // verus!
