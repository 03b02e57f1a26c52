//! Plain model of the host engine's column values, and the rows the core
//! writes into callback tables.
//!
//! The core never computes with floating-point columns, but the timer sink
//! must pass any value through to its deferred insert, so a real travels as
//! its IEEE 754 bit pattern: the embedding program converts at the edge and
//! the value crosses the core opaquely and without loss.

use vstd::prelude::*;

verus! {

/// One column value handed to or received from the host engine.
#[derive(Clone, PartialEq, Eq, Debug)]
pub enum SqlValue {
    Null,
    Integer(i64),
    /// A real-valued column, as the bit pattern of its 64-bit float.
    Real(u64),
    Text(String),
    Blob(Vec<u8>),
}

/// The mathematical content of a column value.
pub enum SqlValueView {
    Null,
    Integer(i64),
    Real(u64),
    Text(Seq<char>),
    Blob(Seq<u8>),
}

impl View for SqlValue {
    type V = SqlValueView;

    open spec fn view(&self) -> SqlValueView {
        match self {
            SqlValue::Null => SqlValueView::Null,
            SqlValue::Integer(n) => SqlValueView::Integer(*n),
            SqlValue::Real(bits) => SqlValueView::Real(*bits),
            SqlValue::Text(s) => SqlValueView::Text(s@),
            SqlValue::Blob(b) => SqlValueView::Blob(b@),
        }
    }
}

impl SqlValue {
    /// A copy holding the same content.
    pub fn duplicate(&self) -> (r: SqlValue)
        ensures
            r@ == self@,
    {
        match self {
            SqlValue::Null => SqlValue::Null,
            SqlValue::Integer(n) => SqlValue::Integer(*n),
            SqlValue::Real(bits) => SqlValue::Real(*bits),
            SqlValue::Text(s) => SqlValue::Text(s.clone()),
            SqlValue::Blob(b) => SqlValue::Blob(vstd::slice::slice_to_vec(b.as_slice())),
        }
    }
}

/// One row the core asks the host engine to insert into a named table:
/// `INSERT INTO <table> VALUES (<values>)`.
#[derive(Debug)]
pub struct RowInsert {
    pub table: String,
    pub values: Vec<SqlValue>,
}

/// Whether two strings hold the same characters.
pub fn str_eq(a: &str, b: &str) -> (r: bool)
    ensures
        r == (a@ == b@),
{
    let na = a.unicode_len();
    let nb = b.unicode_len();
    if na != nb {
        return false;
    }
    let mut i: usize = 0;
    while i < na
        invariant
            i <= na,
            na == a@.len(),
            nb == b@.len(),
            na == nb,
            forall|j: int| 0 <= j < i ==> a@[j] == b@[j],
        decreases na - i,
    {
        if a.get_char(i) != b.get_char(i) {
            return false;
        }
        i += 1;
    }
    proof {
        assert(a@ =~= b@);
    }
    true
}

} // verus!
