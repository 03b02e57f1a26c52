//! The TCP core: listener addresses, accepted connections, the rows written
//! for connect and data events, and the outbound send path.
//!
//! The embedding program owns the sockets and threads. It parses the listener
//! address here before binding; on every accepted socket it calls
//! `accept_connection` under exclusive registry access and then writes the
//! returned connect row, before it starts that connection's reader thread; a
//! reader thread turns each received byte into a row with `data_row`; and a
//! send call turns into a stream write through `send_to`.

use vstd::prelude::*;
use crate::errors::Error;
use crate::registry::{ConnectionSlot, Registry};
use crate::token::{token_hex, ConnectionToken};
use crate::value::{RowInsert, SqlValue};

verus! {

/// An identifier the embedding program assigns to one open OS stream; the
/// registry stores it in place of the stream itself.
#[derive(Clone, Copy, PartialEq, Eq, Debug, Structural)]
pub struct StreamHandle {
    pub id: u64,
}

/// One accepted connection: the remote peer's `"ip:port"` address and the
/// handle of its open bidirectional byte stream. Owned by the registry entry;
/// the reader thread holds its own clone of the readable half, while writes
/// go through the handle held here.
#[derive(Debug)]
pub struct TcpConnection {
    pub remote_addr: String,
    pub stream: StreamHandle,
}

/// The write the embedding program performs when `send_to` succeeds: a full
/// blocking write of the bytes to the named stream.
#[derive(Debug)]
pub struct SendAction {
    pub stream: StreamHandle,
    pub bytes: Vec<u8>,
}

/// The value is the text rendering of `s`.
pub open spec fn is_text(v: SqlValue, s: Seq<char>) -> bool {
    match v {
        SqlValue::Text(t) => t@ == s,
        _ => false,
    }
}

/// The row the connect callback receives: `(token as 8 hex digits,
/// remote address)`.
pub open spec fn is_connect_row(r: RowInsert, table: Seq<char>, token: u32, remote: Seq<char>) -> bool {
    &&& r.table@ == table
    &&& r.values@.len() == 2
    &&& is_text(r.values@[0], token_hex(token))
    &&& is_text(r.values@[1], remote)
}

/// The row the data callback receives for one byte: `(token as 8 hex digits,
/// byte as integer 0-255)`.
pub open spec fn is_data_row(r: RowInsert, table: Seq<char>, token: u32, byte: u8) -> bool {
    &&& r.table@ == table
    &&& r.values@.len() == 2
    &&& is_text(r.values@[0], token_hex(token))
    &&& r.values@[1] == SqlValue::Integer(byte as i64)
}

/// Builds the connect-callback row for a newly accepted connection.
pub fn connect_row(token: ConnectionToken, remote_addr: &str, connect_table: &str) -> (r: RowInsert)
    ensures
        is_connect_row(r, connect_table@, token.spec_value(), remote_addr@),
{
    let mut values: Vec<SqlValue> = Vec::new();
    values.push(SqlValue::Text(token.to_hex_string()));
    values.push(SqlValue::Text(remote_addr.to_owned()));
    RowInsert { table: connect_table.to_owned(), values }
}

/// Builds the data-callback row for one received byte.
pub fn data_row(token: ConnectionToken, byte: u8, data_table: &str) -> (r: RowInsert)
    ensures
        is_data_row(r, data_table@, token.spec_value(), byte),
{
    let mut values: Vec<SqlValue> = Vec::new();
    values.push(SqlValue::Text(token.to_hex_string()));
    values.push(SqlValue::Integer(byte as i64));
    RowInsert { table: data_table.to_owned(), values }
}

/// The data-callback rows for a run of bytes received on one connection: one
/// row per byte, in exactly the order the bytes arrived.
pub fn reader_rows(token: ConnectionToken, bytes: &Vec<u8>, data_table: &str) -> (rows: Vec<
    RowInsert,
>)
    ensures
        rows@.len() == bytes@.len(),
        forall|i: int|
            0 <= i < rows@.len() ==> is_data_row(
                #[trigger] rows@[i],
                data_table@,
                token.spec_value(),
                bytes@[i],
            ),
{
    let mut rows: Vec<RowInsert> = Vec::new();
    let mut i: usize = 0;
    while i < bytes.len()
        invariant
            i <= bytes@.len(),
            rows@.len() == i,
            forall|j: int|
                0 <= j < i ==> is_data_row(
                    #[trigger] rows@[j],
                    data_table@,
                    token.spec_value(),
                    bytes@[j],
                ),
        decreases bytes@.len() - i,
    {
        rows.push(data_row(token, bytes[i], data_table));
        i += 1;
    }
    rows
}

/// One accept event. Under the exclusive registry access the caller holds,
/// allocates a token that no current entry equals, registers the connection
/// open under it, and returns the token with the connect-callback row. The
/// caller writes that row before it starts this connection's reader thread,
/// so the connected row precedes every data row of the token.
pub fn accept_connection(
    registry: &mut Registry,
    remote_addr: String,
    stream: StreamHandle,
    connect_table: &str,
) -> (r: Result<(ConnectionToken, RowInsert), Error>)
    ensures
        r matches Ok((t, row)) ==> {
            &&& !old(registry)@.contains_key(t.spec_value())
            &&& final(registry)@ == old(registry)@.insert(
                t.spec_value(),
                ConnectionSlot::Open(TcpConnection { remote_addr, stream }),
            )
            &&& is_connect_row(row, connect_table@, t.spec_value(), remote_addr@)
        },
        r is Err ==> final(registry)@ == old(registry)@ && r == Err::<(ConnectionToken, RowInsert), Error>(
            Error::AllocationFailed,
        ),
        old(registry)@ == Map::<u32, ConnectionSlot>::empty() ==> r is Ok,
{
    let token = match registry.allocate() {
        Ok(t) => t,
        Err(e) => {
            return Err(Error::AllocationFailed);
        },
    };
    let row = connect_row(token, remote_addr.as_str(), connect_table);
    registry.insert(token, TcpConnection { remote_addr, stream });
    proof {
        assert(registry@ =~= old(registry)@.insert(
            token.spec_value(),
            ConnectionSlot::Open(TcpConnection { remote_addr, stream }),
        ));
    }
    Ok((token, row))
}

/// The outbound send path. Looks the token up in the registry and, exactly
/// when it names an open connection, directs the caller to write the bytes to
/// that connection's stream; a never-allocated (or still pending) token is an
/// unknown-token error, and the registry is unchanged either way. The caller
/// holds the registry lock for the duration of its stream write.
pub fn send_to(registry: &Registry, token: ConnectionToken, data: &[u8]) -> (r: Result<
    SendAction,
    Error,
>)
    ensures
        r is Ok <==> (registry@.contains_key(token.spec_value())
            && registry@[token.spec_value()] is Open),
        r matches Ok(a) ==> {
            &&& (registry@[token.spec_value()] matches ConnectionSlot::Open(c)
                && a.stream == c.stream)
            &&& a.bytes@ == data@
        },
        r is Err ==> r == Err::<SendAction, Error>(Error::UnknownToken),
{
    match registry.lookup(token) {
        Ok(connection) => Ok(
            SendAction { stream: connection.stream, bytes: vstd::slice::slice_to_vec(data) },
        ),
        Err(e) => Err(Error::UnknownToken),
    }
}

} // verus!
