use sqlio::addr::{parse_addr, ListenAddr};
use sqlio::engine::{EngineHandle, EngineSession};
use sqlio::errors::Error;
use sqlio::registry::Registry;
use sqlio::tcp::{accept_connection, reader_rows, send_to, StreamHandle};
use sqlio::token::ConnectionToken;
use sqlio::value::SqlValue;

#[test]
fn allocate_returns_a_fresh_registered_token() {
    let mut registry = Registry::new();
    let mut open: Vec<ConnectionToken> = Vec::new();
    for i in 0..8u64 {
        let (t, _row) = accept_connection(
            &mut registry,
            format!("10.0.0.{i}:1000"),
            StreamHandle { id: i },
            "conn_cb",
        )
        .unwrap();
        for prior in &open {
            assert_ne!(t, *prior);
        }
        open.push(t);
    }
    let fresh = registry.allocate().unwrap();
    for prior in &open {
        assert_ne!(fresh, *prior);
    }
    assert!(registry.contains(fresh));
}

#[test]
fn allocation_on_an_empty_registry_succeeds() {
    let mut registry = Registry::new();
    let token = registry.allocate().expect("no draw can collide with an empty registry");
    assert!(registry.contains(token));
}

#[test]
fn try_claim_refuses_a_taken_token() {
    let mut registry = Registry::new();
    let t = ConnectionToken::new(7);
    assert!(registry.try_claim(t));
    assert!(!registry.try_claim(t));
    assert!(registry.contains(t));
}

#[test]
fn connect_row_precedes_data_rows() {
    let mut registry = Registry::new();
    let (token, connect) = accept_connection(
        &mut registry,
        "127.0.0.1:54321".to_string(),
        StreamHandle { id: 1 },
        "conn_cb",
    )
    .unwrap();
    assert_eq!(connect.table, "conn_cb");
    assert_eq!(connect.values.len(), 2);
    assert_eq!(connect.values[0], SqlValue::Text(token.to_hex_string()));
    assert_eq!(connect.values[1], SqlValue::Text("127.0.0.1:54321".to_string()));

    let data = reader_rows(token, &vec![0x41u8, 0x42, 0x43], "data_cb");
    assert_eq!(data.len(), 3);
    for (i, expected) in [65i64, 66, 67].iter().enumerate() {
        assert_eq!(data[i].table, "data_cb");
        assert_eq!(data[i].values[0], SqlValue::Text(token.to_hex_string()));
        assert_eq!(data[i].values[1], SqlValue::Integer(*expected));
    }
}

#[test]
fn send_to_unknown_token_is_a_lookup_error() {
    let mut registry = Registry::new();
    let (known, _row) = accept_connection(
        &mut registry,
        "127.0.0.1:1".to_string(),
        StreamHandle { id: 9 },
        "conn_cb",
    )
    .unwrap();
    let stranger = ConnectionToken::new(known.value().wrapping_add(1));
    assert!(!registry.contains(stranger));
    let r = send_to(&registry, stranger, &[1, 2, 3]);
    assert_eq!(r.unwrap_err(), Error::UnknownToken);
    assert!(!registry.contains(stranger));
    assert!(registry.contains(known));
}

#[test]
fn send_to_open_connection_writes_the_bytes() {
    let mut registry = Registry::new();
    let (token, _row) = accept_connection(
        &mut registry,
        "192.168.1.5:4000".to_string(),
        StreamHandle { id: 42 },
        "conn_cb",
    )
    .unwrap();
    let action = send_to(&registry, token, &[10, 20]).unwrap();
    assert_eq!(action.stream, StreamHandle { id: 42 });
    assert_eq!(action.bytes, vec![10u8, 20]);
}

#[test]
fn pending_token_is_not_sendable() {
    let mut registry = Registry::new();
    let pending = registry.allocate().unwrap();
    let r = send_to(&registry, pending, &[1]);
    assert_eq!(r.unwrap_err(), Error::UnknownToken);
}

#[test]
fn removed_token_is_unknown_again() {
    let mut registry = Registry::new();
    let (token, _row) = accept_connection(
        &mut registry,
        "127.0.0.1:2222".to_string(),
        StreamHandle { id: 5 },
        "conn_cb",
    )
    .unwrap();
    assert!(registry.contains(token));
    registry.remove(token);
    assert!(!registry.contains(token));
    assert_eq!(send_to(&registry, token, &[1]).unwrap_err(), Error::UnknownToken);
}

#[test]
fn parses_dotted_quad_addresses() {
    assert_eq!(
        parse_addr("127.0.0.1:8080"),
        Ok(ListenAddr { a: 127, b: 0, c: 0, d: 1, port: 8080 })
    );
    assert_eq!(
        parse_addr("255.255.255.255:65535"),
        Ok(ListenAddr { a: 255, b: 255, c: 255, d: 255, port: 65535 })
    );
    assert_eq!(parse_addr("0.0.0.0:0"), Ok(ListenAddr { a: 0, b: 0, c: 0, d: 0, port: 0 }));
}

#[test]
fn rejects_invalid_addresses() {
    for bad in [
        "",
        "1.2.3.4",
        "999.0.0.1:80",
        "1.2.3.4:70000",
        "1.2.3:80",
        "1.2.3.4.5:80",
        "a.b.c.d:e",
        "1.2.3.4:80x",
        "1..3.4:80",
        "1.2.3.4:",
        "010.0.0.1:80",
        "1.02.3.4:80",
        "00.0.0.0:80",
    ] {
        assert_eq!(parse_addr(bad), Err(Error::InvalidAddress), "accepted {bad:?}");
    }
}

#[test]
fn handle_materializes_only_while_the_session_is_open() {
    let mut session = EngineSession { id: 11, open: true };
    let handle = EngineHandle::from_session(&session);
    let conn = handle.materialize(&session).unwrap();
    assert_eq!(conn.session, 11);
    session.open = false;
    assert_eq!(handle.materialize(&session).unwrap_err(), Error::SessionClosed);
    let other = EngineSession { id: 12, open: true };
    assert_eq!(handle.materialize(&other).unwrap_err(), Error::SessionClosed);
}
