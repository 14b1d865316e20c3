//! `mongoc list`: lists the open connections.

use crate::plugin::MongoPlugin;
use crate::value::{Record, Span, Value, ValueView};
use vstd::prelude::*;

verus! {

/// Lists the open connections.
#[derive(Clone, Copy, Debug)]
pub struct List;

impl List {
    /// The name under which the shell calls the command.
    pub fn name(&self) -> (r: &'static str)
        ensures
            r@ == "mongoc list"@,
    {
        "mongoc list"
    }

    /// One line on what the command does.
    pub fn description(&self) -> (r: &'static str)
        ensures
            r@ == "list mongodb connections"@,
    {
        "list mongodb connections"
    }

    /// The list that shows `handles` to the shell: a row for each, in the
    /// given order, with the handle under `id` and the address under
    /// `addr`, every part of it at the place of the command.
    pub fn rows(&self, handles: Vec<(u8, String)>, head: Span) -> (v: Value)
        ensures
            v@ == (ValueView::List { vals: handle_rows(handles@, head), span: head }),
    {
        let ghost all = handles@;
        let mut rows: Vec<Value> = Vec::new();
        for handle in it: handles.into_iter()
            invariant
                it.seq() == all,
                rows@.len() == it.index(),
                forall|i: int|
                    0 <= i < rows@.len() ==> (#[trigger] rows@[i])@ == handle_rows(all, head)[i],
        {
            let (id, addr) = handle;
            let mut rec = Record::new();
            rec.push("id".to_owned(), Value::Int { val: id as i64, span: head });
            rec.push("addr".to_owned(), Value::String { val: addr, span: head });
            let row = Value::Record { val: rec, span: head };
            assert(row@->val =~= handle_row(handle, head)->val);
            rows.push(row);
        }
        let v = Value::List { vals: rows, span: head };
        assert(v@->vals =~= handle_rows(all, head));
        v
    }

    /// Lists the open connections by rising handle.
    pub fn run(&self, plugin: &MongoPlugin, head: Span) -> (v: Value)
        ensures
            exists|handles: Seq<(u8, String)>|
                rising(handles) && v@ == (ValueView::List {
                    vals: handle_rows(handles, head),
                    span: head,
                }),
    {
        let handles = plugin.list_handles();
        assert(rising(handles@));
        self.rows(handles, head)
    }
}

/// The row that shows one connection.
pub open spec fn handle_row(handle: (u8, String), span: Span) -> ValueView {
    ValueView::Record {
        val: seq![
            ("id"@, ValueView::Int { val: handle.0 as i64, span }),
            ("addr"@, ValueView::String { val: handle.1@, span }),
        ],
        span,
    }
}

/// The rows that show a run of connections.
pub open spec fn handle_rows(handles: Seq<(u8, String)>, span: Span) -> Seq<ValueView> {
    Seq::new(handles.len(), |i: int| handle_row(handles[i], span))
}

/// Whether the handles of a run of connections rise.
pub open spec fn rising(handles: Seq<(u8, String)>) -> bool {
    forall|i: int, j: int|
        0 <= i < j < handles.len() ==> (#[trigger] handles[i]).0 < (#[trigger] handles[j]).0
}

} // verus!
