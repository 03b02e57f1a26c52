//! The file sink: each inserted row writes or appends bytes to a file.
//!
//! An insert of `(contents, path, ty)` asks the embedding program to open the
//! file at `path` — created if missing — and either to replace its contents
//! (`ty = "write"`) or to extend them (`ty = "append"`) with the given bytes.
//! Text contents are written as their UTF-8 bytes. Any other `ty` is rejected
//! with a validation error and nothing is written.

use vstd::prelude::*;
use vstd::utf8::encode_utf8;
use crate::engine::EngineHandle;
use crate::errors::Error;
use crate::table_fn::{SinkAction, TableFn};
use crate::value::{str_eq, SqlValue, SqlValueView};

verus! {

/// One requested file write: put `contents` into the file at `path`,
/// extending it when `append` holds and replacing it otherwise.
#[derive(Debug)]
pub struct FileWrite {
    pub path: String,
    pub contents: Vec<u8>,
    pub append: bool,
}

/// The file sink state. The sink needs nothing from the engine: every insert
/// is handled from its row alone.
#[derive(Clone, Copy, PartialEq, Eq, Debug, Structural)]
pub struct WriteToFile;

/// The bytes one contents column stands for: a blob's own bytes, or the
/// UTF-8 encoding of a text value.
pub open spec fn contents_bytes(v: SqlValueView) -> Seq<u8> {
    match v {
        SqlValueView::Blob(b) => b,
        SqlValueView::Text(s) => encode_utf8(s),
        _ => Seq::empty(),
    }
}

/// The row shape the file sink takes, except for the value of `ty`: three
/// declared columns holding blob-or-text contents, a text path, a text type.
pub open spec fn file_row_shape(args: Seq<SqlValue>) -> bool {
    &&& args.len() == 5
    &&& (args[2]@ is Blob || args[2]@ is Text)
    &&& args[3]@ is Text
    &&& args[4]@ is Text
}

/// The file sink accepts a well-shaped row whose `ty` is `"write"` or
/// `"append"`.
pub open spec fn file_accepts(args: Seq<SqlValue>) -> bool {
    &&& file_row_shape(args)
    &&& (args[4]@ matches SqlValueView::Text(t) && (t == "write"@ || t == "append"@))
}

impl TableFn for WriteToFile {
    open spec fn spec_module_name() -> Seq<char> {
        "write_to_file"@
    }

    open spec fn spec_schema() -> Seq<char> {
        "CREATE TABLE x(contents BLOB, path VARCHAR, ty VARCHAR)"@
    }

    open spec fn spec_new(handle: EngineHandle) -> WriteToFile {
        WriteToFile
    }

    open spec fn insert_accepts(pre: WriteToFile, args: Seq<SqlValue>) -> bool {
        file_accepts(args)
    }

    open spec fn insert_error(pre: WriteToFile, args: Seq<SqlValue>) -> Error {
        if file_row_shape(args) {
            Error::InvalidSinkType
        } else {
            Error::InvalidColumns
        }
    }

    open spec fn insert_effect(pre: WriteToFile, args: Seq<SqlValue>, post: WriteToFile, action: SinkAction) -> bool {
        &&& post == pre
        &&& action matches SinkAction::WriteFile(f) && {
            &&& f.contents@ == contents_bytes(args[2]@)
            &&& args[3]@ matches SqlValueView::Text(p) && f.path@ == p
            &&& f.append == (args[4]@ matches SqlValueView::Text(t) && t == "append"@)
        }
    }

    open spec fn spec_get(&self) -> Seq<Seq<SqlValue>> {
        Seq::empty()
    }

    fn module_name() -> (r: &'static str) {
        "write_to_file"
    }

    fn schema() -> (r: &'static str) {
        "CREATE TABLE x(contents BLOB, path VARCHAR, ty VARCHAR)"
    }

    fn new(handle: EngineHandle) -> (r: WriteToFile) {
        WriteToFile
    }

    fn on_insert(&mut self, args: &Vec<SqlValue>) -> (r: Result<SinkAction, Error>) {
        if args.len() != 5 {
            return Err(Error::InvalidColumns);
        }
        let contents: Vec<u8> = match &args[2] {
            SqlValue::Blob(b) => vstd::slice::slice_to_vec(b.as_slice()),
            SqlValue::Text(s) => vstd::slice::slice_to_vec(s.as_str().as_bytes()),
            _ => {
                return Err(Error::InvalidColumns);
            },
        };
        let path: String = match &args[3] {
            SqlValue::Text(s) => s.clone(),
            _ => {
                return Err(Error::InvalidColumns);
            },
        };
        let append: bool = match &args[4] {
            SqlValue::Text(t) => {
                if str_eq(t.as_str(), "append") {
                    true
                } else if str_eq(t.as_str(), "write") {
                    false
                } else {
                    return Err(Error::InvalidSinkType);
                }
            },
            _ => {
                return Err(Error::InvalidColumns);
            },
        };
        Ok(SinkAction::WriteFile(FileWrite { path, contents, append }))
    }

    fn get(&self) -> (r: Vec<Vec<SqlValue>>) {
        Vec::new()
    }
}

/// The bytes a file holds after one requested write is performed against it:
/// an append extends the prior contents, a write replaces them. A file that
/// does not yet exist has empty prior contents.
pub fn apply_file_write(prior: &Vec<u8>, action: &FileWrite) -> (r: Vec<u8>)
    ensures
        action.append ==> r@ == prior@ + action.contents@,
        !action.append ==> r@ == action.contents@,
{
    if action.append {
        let mut out = vstd::slice::slice_to_vec(prior.as_slice());
        out.append(&mut vstd::slice::slice_to_vec(action.contents.as_slice()));
        proof {
            assert(out@ =~= prior@ + action.contents@);
        }
        out
    } else {
        vstd::slice::slice_to_vec(action.contents.as_slice())
    }
}

} // verus!
