//! The timer sink: a one-shot delayed write of a value into a named table.
//!
//! An insert of `(n_millis, insert_table, value)` asks the embedding program
//! to start a thread that sleeps for `n_millis` and then inserts `value` into
//! `insert_table` through a fresh materialization of the engine handle. Until
//! that moment the target table is untouched; a failure of the late insert is
//! logged by the embedding program and not surfaced, since the scheduling
//! caller has long returned.

use vstd::prelude::*;
use crate::engine::EngineHandle;
use crate::errors::Error;
use crate::table_fn::{SinkAction, TableFn};
use crate::value::{RowInsert, SqlValue, SqlValueView};

verus! {

/// One scheduled timer: after `millis` milliseconds, insert `value` into the
/// table named `table`, through `handle`.
#[derive(Debug)]
pub struct TimerSchedule {
    pub millis: u64,
    pub table: String,
    pub value: SqlValue,
    pub handle: EngineHandle,
}

/// The timer sink state: the engine handle that scheduled timers will copy.
#[derive(Clone, Copy, PartialEq, Eq, Debug, Structural)]
pub struct Timer {
    pub handle: EngineHandle,
}

/// The timer sink accepts a row whose three declared columns are a
/// non-negative integer delay, a text table name, and any value.
pub open spec fn timer_accepts(args: Seq<SqlValue>) -> bool {
    &&& args.len() == 5
    &&& args[2]@ matches SqlValueView::Integer(n) && n >= 0
    &&& args[3]@ is Text
}

impl TableFn for Timer {
    open spec fn spec_module_name() -> Seq<char> {
        "timer"@
    }

    open spec fn spec_schema() -> Seq<char> {
        "CREATE TABLE x(n_millis INTEGER, insert_table VARCHAR, value ANY)"@
    }

    open spec fn spec_new(handle: EngineHandle) -> Timer {
        Timer { handle }
    }

    open spec fn insert_accepts(pre: Timer, args: Seq<SqlValue>) -> bool {
        timer_accepts(args)
    }

    open spec fn insert_error(pre: Timer, args: Seq<SqlValue>) -> Error {
        Error::InvalidColumns
    }

    open spec fn insert_effect(pre: Timer, args: Seq<SqlValue>, post: Timer, action: SinkAction) -> bool {
        &&& post == pre
        &&& action matches SinkAction::ScheduleTimer(s) && {
            &&& args[2]@ matches SqlValueView::Integer(n) && s.millis == n as u64
            &&& args[3]@ matches SqlValueView::Text(t) && s.table@ == t
            &&& s.value@ == args[4]@
            &&& s.handle == pre.handle
        }
    }

    open spec fn spec_get(&self) -> Seq<Seq<SqlValue>> {
        Seq::empty()
    }

    fn module_name() -> (r: &'static str) {
        "timer"
    }

    fn schema() -> (r: &'static str) {
        "CREATE TABLE x(n_millis INTEGER, insert_table VARCHAR, value ANY)"
    }

    fn new(handle: EngineHandle) -> (r: Timer) {
        Timer { handle }
    }

    fn on_insert(&mut self, args: &Vec<SqlValue>) -> (r: Result<SinkAction, Error>) {
        if args.len() != 5 {
            return Err(Error::InvalidColumns);
        }
        let millis: u64 = match &args[2] {
            SqlValue::Integer(n) => {
                if *n >= 0 {
                    *n as u64
                } else {
                    return Err(Error::InvalidColumns);
                }
            },
            _ => {
                return Err(Error::InvalidColumns);
            },
        };
        let table: String = match &args[3] {
            SqlValue::Text(s) => s.clone(),
            _ => {
                return Err(Error::InvalidColumns);
            },
        };
        let value = args[4].duplicate();
        Ok(
            SinkAction::ScheduleTimer(
                TimerSchedule { millis, table, value, handle: self.handle },
            ),
        )
    }

    fn get(&self) -> (r: Vec<Vec<SqlValue>>) {
        Vec::new()
    }
}

/// The single row a pending timer writes into its target table when it
/// fires: the scheduled value, alone. Before the timer fires, nothing has
/// been written.
pub fn timer_fire(schedule: &TimerSchedule) -> (r: RowInsert)
    ensures
        r.table@ == schedule.table@,
        r.values@.len() == 1,
        r.values@[0]@ == schedule.value@,
{
    let mut values: Vec<SqlValue> = Vec::new();
    values.push(schedule.value.duplicate());
    RowInsert { table: schedule.table.clone(), values }
}

} // verus!
