//! The generic event-sink abstraction: a push-triggered virtual table.
//!
//! A sink exposes a push side — the host engine calls `on_insert` for every
//! `INSERT` against the sink's table — and a pull side — enumerating the
//! table materializes a fresh snapshot of rows. `UPDATE` and `DELETE` are
//! always rejected and change nothing. Each concrete sink declares its fixed
//! module name, its column schema, a constructor over the engine handle, and
//! what one accepted insert does; the snapshot defaults to empty.

use vstd::prelude::*;
use crate::engine::EngineHandle;
use crate::errors::Error;
use crate::timer::TimerSchedule;
use crate::value::SqlValue;
use crate::write_to_file::FileWrite;

verus! {

/// The side effect one accepted sink insert asks the embedding program to
/// perform after the insert call has returned.
#[derive(Debug)]
pub enum SinkAction {
    /// Start a one-shot timer thread (the timer sink).
    ScheduleTimer(TimerSchedule),
    /// Write or append bytes to a file (the file sink).
    WriteFile(FileWrite),
}

/// The snapshot rows a pull-side enumeration returns match the sink's
/// declared snapshot, value for value and in declaration order.
pub open spec fn rows_match(rows: Seq<Vec<SqlValue>>, snapshot: Seq<Seq<SqlValue>>) -> bool {
    &&& rows.len() == snapshot.len()
    &&& forall|i: int| 0 <= i < rows.len() ==> #[trigger] rows[i]@ == snapshot[i]
}

/// One push-triggered virtual table.
///
/// `insert_accepts` says which inserted rows the sink takes; `insert_effect`
/// relates an accepted row to the resulting sink state and requested side
/// effect; `insert_error` is the error rejecting every other row. The host
/// engine hands `on_insert` the raw argument list of an insert: the rowid
/// pair first, the declared columns from index 2 on.
pub trait TableFn: Sized {
    /// The fixed module/table name the sink is registered under.
    spec fn spec_module_name() -> Seq<char>;

    /// The fixed column schema: a `CREATE TABLE x(...)` declaration.
    spec fn spec_schema() -> Seq<char>;

    /// The sink state constructed over an engine-scoped handle.
    spec fn spec_new(handle: EngineHandle) -> Self;

    /// Whether the sink accepts this inserted row.
    spec fn insert_accepts(pre: Self, args: Seq<SqlValue>) -> bool;

    /// The error with which the sink rejects a row it does not accept.
    spec fn insert_error(pre: Self, args: Seq<SqlValue>) -> Error;

    /// What one accepted insert does: how the next state and the requested
    /// side effect relate to the prior state and the row.
    spec fn insert_effect(pre: Self, args: Seq<SqlValue>, post: Self, action: SinkAction) -> bool;

    /// The snapshot the pull side enumerates.
    spec fn spec_get(&self) -> Seq<Seq<SqlValue>>;

    fn module_name() -> (r: &'static str)
        ensures
            r@ == Self::spec_module_name(),
    ;

    fn schema() -> (r: &'static str)
        ensures
            r@ == Self::spec_schema(),
    ;

    fn new(handle: EngineHandle) -> (r: Self)
        ensures
            r == Self::spec_new(handle),
    ;

    /// The push side: called for every `INSERT` against the sink's table.
    /// Accepts or rejects the row exactly as `insert_accepts` says; a
    /// rejected row has no effect.
    fn on_insert(&mut self, args: &Vec<SqlValue>) -> (r: Result<SinkAction, Error>)
        ensures
            r matches Ok(action) ==> Self::insert_accepts(*old(self), args@)
                && Self::insert_effect(*old(self), args@, *final(self), action),
            r matches Err(e) ==> !Self::insert_accepts(*old(self), args@)
                && e == Self::insert_error(*old(self), args@)
                && *final(self) == *old(self),
    ;

    /// The pull side: the rows a fresh enumeration of the table returns.
    fn get(&self) -> (r: Vec<Vec<SqlValue>>)
        ensures
            rows_match(r@, self.spec_get()),
    ;
}

/// A cursor over a materialized snapshot: the static list of rows one
/// enumeration walks, with the row index as the stable row identifier.
#[derive(Debug)]
pub struct StaticCursor {
    values: Vec<Vec<SqlValue>>,
    current_row: usize,
}

impl StaticCursor {
    /// The snapshot rows the cursor walks.
    pub closed spec fn spec_values(&self) -> Seq<Vec<SqlValue>> {
        self.values@
    }

    /// The index of the row the cursor stands on.
    pub closed spec fn spec_row(&self) -> int {
        self.current_row as int
    }

    /// A cursor standing on the first row of the snapshot.
    pub fn from_values(values: Vec<Vec<SqlValue>>) -> (c: StaticCursor)
        ensures
            c.spec_values() == values@,
            c.spec_row() == 0,
    {
        StaticCursor { values, current_row: 0 }
    }

    /// Rewinds to the first row; the snapshot itself is unchanged.
    pub fn filter(&mut self)
        ensures
            final(self).spec_values() == old(self).spec_values(),
            final(self).spec_row() == 0,
    {
        self.current_row = 0;
    }

    /// Steps to the next row.
    pub fn next(&mut self)
        requires
            old(self).spec_row() < old(self).spec_values().len(),
        ensures
            final(self).spec_values() == old(self).spec_values(),
            final(self).spec_row() == old(self).spec_row() + 1,
    {
        let bound = self.values.len();
        assert(self.current_row < bound);
        self.current_row = self.current_row + 1;
    }

    /// Whether the cursor has walked past the last row.
    pub fn eof(&self) -> (b: bool)
        ensures
            b == (self.spec_row() >= self.spec_values().len()),
    {
        self.current_row >= self.values.len()
    }

    /// The column value of the current row at a given index.
    pub fn column(&self, i: usize) -> (v: &SqlValue)
        requires
            self.spec_row() < self.spec_values().len(),
            i < self.spec_values()[self.spec_row()]@.len(),
        ensures
            *v == self.spec_values()[self.spec_row()]@[i as int],
    {
        &self.values[self.current_row][i]
    }

    /// The column value of the current row at a given index, or nothing when
    /// the cursor is past the end or the row has no such column.
    pub fn try_column(&self, i: usize) -> (v: Option<&SqlValue>)
        ensures
            v is Some <==> (self.spec_row() < self.spec_values().len()
                && i < self.spec_values()[self.spec_row()]@.len()),
            v matches Some(c) ==> *c == self.spec_values()[self.spec_row()]@[i as int],
    {
        if self.current_row < self.values.len() && i < self.values[self.current_row].len() {
            Some(&self.values[self.current_row][i])
        } else {
            None
        }
    }

    /// The stable-for-this-snapshot identifier of the current row: its index.
    pub fn rowid(&self) -> (r: i64)
        requires
            self.spec_row() <= i64::MAX,
        ensures
            r == self.spec_row(),
    {
        self.current_row as i64
    }
}

/// The virtual-table shell the host engine drives: it owns one sink state and
/// forwards the host's insert, update, delete and enumerate calls to it.
#[derive(Debug)]
pub struct TableFnVTab<T: TableFn> {
    inner: T,
}

impl<T: TableFn> TableFnVTab<T> {
    /// The sink state the shell owns.
    pub closed spec fn spec_inner(&self) -> T {
        self.inner
    }

    /// Builds the table for the host: the schema declaration it creates the
    /// table with, and the shell over a freshly constructed sink.
    pub fn connect(handle: EngineHandle) -> (r: (&'static str, TableFnVTab<T>))
        ensures
            r.0@ == T::spec_schema(),
            r.1.spec_inner() == T::spec_new(handle),
    {
        (T::schema(), TableFnVTab { inner: T::new(handle) })
    }

    /// Opens one enumeration: a cursor over a snapshot materialized fresh by
    /// the sink's pull side, standing on the first row.
    pub fn open(&self) -> (c: StaticCursor)
        ensures
            rows_match(c.spec_values(), self.spec_inner().spec_get()),
            c.spec_row() == 0,
    {
        StaticCursor::from_values(self.inner.get())
    }

    /// The host's insert call: forwards the row to the sink's push side.
    pub fn insert(&mut self, args: &Vec<SqlValue>) -> (r: Result<SinkAction, Error>)
        ensures
            r matches Ok(action) ==> T::insert_accepts(old(self).spec_inner(), args@)
                && T::insert_effect(
                old(self).spec_inner(),
                args@,
                final(self).spec_inner(),
                action,
            ),
            r matches Err(e) ==> !T::insert_accepts(old(self).spec_inner(), args@)
                && e == T::insert_error(old(self).spec_inner(), args@)
                && final(self).spec_inner() == old(self).spec_inner(),
    {
        self.inner.on_insert(args)
    }

    /// The host's update call: always rejected, and the sink is unchanged.
    pub fn update(&mut self, _args: &Vec<SqlValue>) -> (r: Result<SinkAction, Error>)
        ensures
            r == Err::<SinkAction, Error>(Error::Protocol),
            final(self).spec_inner() == old(self).spec_inner(),
    {
        Err(Error::Protocol)
    }

    /// The host's delete call: always rejected, and the sink is unchanged.
    pub fn delete(&mut self, _rowid: i64) -> (r: Result<SinkAction, Error>)
        ensures
            r == Err::<SinkAction, Error>(Error::Protocol),
            final(self).spec_inner() == old(self).spec_inner(),
    {
        Err(Error::Protocol)
    }
}

} // verus!
