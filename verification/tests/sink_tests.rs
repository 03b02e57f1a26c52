use sqlio::engine::EngineHandle;
use sqlio::errors::Error;
use sqlio::table_fn::{SinkAction, TableFn, TableFnVTab};
use sqlio::timer::{timer_fire, Timer};
use sqlio::value::SqlValue;
use sqlio::write_to_file::{apply_file_write, WriteToFile};

fn row(columns: Vec<SqlValue>) -> Vec<SqlValue> {
    let mut args = vec![SqlValue::Integer(0), SqlValue::Null];
    args.extend(columns);
    args
}

fn file_write(contents: SqlValue, ty: &str) -> sqlio::write_to_file::FileWrite {
    let mut sink = WriteToFile;
    let args = row(vec![contents, SqlValue::Text("/tmp/out".to_string()), SqlValue::Text(ty.to_string())]);
    match sink.on_insert(&args).unwrap() {
        SinkAction::WriteFile(f) => f,
        _ => unreachable!(),
    }
}

#[test]
fn appends_extend_and_writes_replace() {
    let empty: Vec<u8> = Vec::new();
    let first = apply_file_write(&empty, &file_write(SqlValue::Text("a".to_string()), "append"));
    let second = apply_file_write(&first, &file_write(SqlValue::Text("b".to_string()), "append"));
    assert_eq!(second, b"ab".to_vec());

    let first = apply_file_write(&empty, &file_write(SqlValue::Text("a".to_string()), "write"));
    let second = apply_file_write(&first, &file_write(SqlValue::Text("b".to_string()), "write"));
    assert_eq!(second, b"b".to_vec());
}

#[test]
fn file_sink_takes_blob_or_text_contents() {
    let from_blob = file_write(SqlValue::Blob(vec![1, 2, 3]), "write");
    assert_eq!(from_blob.contents, vec![1u8, 2, 3]);
    assert!(!from_blob.append);
    assert_eq!(from_blob.path, "/tmp/out");

    let from_text = file_write(SqlValue::Text("hé".to_string()), "append");
    assert_eq!(from_text.contents, "hé".as_bytes().to_vec());
    assert!(from_text.append);
}

#[test]
fn file_sink_rejects_bad_rows() {
    let mut sink = WriteToFile;
    let bad_ty = row(vec![
        SqlValue::Blob(vec![1]),
        SqlValue::Text("/tmp/out".to_string()),
        SqlValue::Text("overwrite".to_string()),
    ]);
    assert_eq!(sink.on_insert(&bad_ty).unwrap_err(), Error::InvalidSinkType);

    let bad_contents = row(vec![
        SqlValue::Integer(1),
        SqlValue::Text("/tmp/out".to_string()),
        SqlValue::Text("write".to_string()),
    ]);
    assert_eq!(sink.on_insert(&bad_contents).unwrap_err(), Error::InvalidColumns);

    let too_short = vec![SqlValue::Integer(0), SqlValue::Null];
    assert_eq!(sink.on_insert(&too_short).unwrap_err(), Error::InvalidColumns);
}

#[test]
fn timer_schedules_and_fires_one_row() {
    let handle = EngineHandle { session: 3 };
    let mut timer = Timer::new(handle);
    let args = row(vec![
        SqlValue::Integer(50),
        SqlValue::Text("target".to_string()),
        SqlValue::Integer(99),
    ]);
    let schedule = match timer.on_insert(&args).unwrap() {
        SinkAction::ScheduleTimer(s) => s,
        _ => unreachable!(),
    };
    assert_eq!(schedule.millis, 50);
    assert_eq!(schedule.table, "target");
    assert_eq!(schedule.value, SqlValue::Integer(99));
    assert_eq!(schedule.handle, handle);

    let fired = timer_fire(&schedule);
    assert_eq!(fired.table, "target");
    assert_eq!(fired.values, vec![SqlValue::Integer(99)]);
}

#[test]
fn timer_carries_a_real_value_through_unchanged() {
    let mut timer = Timer::new(EngineHandle { session: 4 });
    let bits = (2.5f64).to_bits();
    let args = row(vec![
        SqlValue::Integer(10),
        SqlValue::Text("target".to_string()),
        SqlValue::Real(bits),
    ]);
    let schedule = match timer.on_insert(&args).unwrap() {
        SinkAction::ScheduleTimer(s) => s,
        _ => unreachable!(),
    };
    assert_eq!(schedule.value, SqlValue::Real(bits));
    let fired = timer_fire(&schedule);
    assert_eq!(fired.values, vec![SqlValue::Real(bits)]);
    assert_eq!(f64::from_bits(bits), 2.5);
}

#[test]
fn timer_rejects_bad_rows() {
    let mut timer = Timer::new(EngineHandle { session: 0 });
    let negative = row(vec![
        SqlValue::Integer(-1),
        SqlValue::Text("target".to_string()),
        SqlValue::Null,
    ]);
    assert_eq!(timer.on_insert(&negative).unwrap_err(), Error::InvalidColumns);

    let no_name = row(vec![SqlValue::Integer(5), SqlValue::Integer(5), SqlValue::Null]);
    assert_eq!(timer.on_insert(&no_name).unwrap_err(), Error::InvalidColumns);
}

#[test]
fn update_and_delete_are_always_rejected() {
    let (schema, mut vtab) = TableFnVTab::<Timer>::connect(EngineHandle { session: 1 });
    assert_eq!(schema, "CREATE TABLE x(n_millis INTEGER, insert_table VARCHAR, value ANY)");
    let args = row(vec![
        SqlValue::Integer(1),
        SqlValue::Text("t".to_string()),
        SqlValue::Null,
    ]);
    assert_eq!(vtab.update(&args).unwrap_err(), Error::Protocol);
    assert_eq!(vtab.delete(0).unwrap_err(), Error::Protocol);
    // The sink still works exactly as before the rejected calls.
    assert!(matches!(vtab.insert(&args), Ok(SinkAction::ScheduleTimer(_))));
}

#[test]
fn cursor_walks_the_snapshot_in_order() {
    let rows = vec![
        vec![SqlValue::Integer(1), SqlValue::Text("x".to_string())],
        vec![SqlValue::Integer(2), SqlValue::Text("y".to_string())],
    ];
    let mut cursor = sqlio::table_fn::StaticCursor::from_values(rows);
    assert!(!cursor.eof());
    assert_eq!(cursor.rowid(), 0);
    assert_eq!(*cursor.column(0), SqlValue::Integer(1));
    cursor.next();
    assert_eq!(cursor.rowid(), 1);
    assert_eq!(*cursor.column(1), SqlValue::Text("y".to_string()));
    cursor.next();
    assert!(cursor.eof());
    cursor.filter();
    assert!(!cursor.eof());
    assert_eq!(cursor.rowid(), 0);
}

#[test]
fn sink_snapshots_default_to_empty() {
    let timer = Timer::new(EngineHandle { session: 1 });
    assert!(timer.get().is_empty());
    let (_schema, vtab) = TableFnVTab::<WriteToFile>::connect(EngineHandle { session: 1 });
    let cursor = vtab.open();
    assert!(cursor.eof());
}
