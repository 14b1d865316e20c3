//! `mongoc list-indexes`: lists the indexes of a collection.

use crate::value::{Record, Span, Value, ValueView};
use vstd::prelude::*;

verus! {

/// Lists the indexes of a collection.
#[derive(Clone, Copy, Debug)]
pub struct ListIndexes;

impl ListIndexes {
    /// The name under which the shell calls the command.
    pub fn name(&self) -> (r: &'static str)
        ensures
            r@ == "mongoc list-indexes"@,
    {
        "mongoc list-indexes"
    }

    /// One line on what the command does.
    pub fn description(&self) -> (r: &'static str)
        ensures
            r@ == "find mongodb documents"@,
    {
        "find mongodb documents"
    }

    /// The row for one index: its keys under `key`, and under `options`
    /// its options, or nothing where it has none.
    pub fn row(&self, keys: String, options: Option<String>, head: Span) -> (v: Value)
        ensures
            v@ == index_row(keys@, options, head),
    {
        let mut rec = Record::new();
        rec.push("key".to_owned(), Value::String { val: keys, span: head });
        let shown = match options {
            None => Value::Nothing { span: head },
            Some(text) => Value::String { val: text, span: head },
        };
        rec.push("options".to_owned(), shown);
        let v = Value::Record { val: rec, span: head };
        assert(v@->val =~= index_row(keys@, options, head)->val);
        v
    }

    /// What the command hands back to the shell: a row for each index, in
    /// the driver's order, at the place of the command. An index comes as
    /// the text of its keys and, where it has options, the text of those.
    pub fn output(&self, indexes: Vec<(String, Option<String>)>, head: Span) -> (v: Value)
        ensures
            v@ == (ValueView::List { vals: index_rows(indexes@, head), span: head }),
    {
        let ghost all = indexes@;
        let mut rows: Vec<Value> = Vec::new();
        for index in it: indexes.into_iter()
            invariant
                it.seq() == all,
                rows@.len() == it.index(),
                forall|i: int|
                    0 <= i < rows@.len() ==> (#[trigger] rows@[i])@ == index_rows(all, head)[i],
        {
            let (keys, options) = index;
            let row = self.row(keys, options, head);
            rows.push(row);
        }
        let v = Value::List { vals: rows, span: head };
        assert(v@->vals =~= index_rows(all, head));
        v
    }
}

/// The row for one index.
pub open spec fn index_row(keys: Seq<char>, options: Option<String>, span: Span) -> ValueView {
    ValueView::Record {
        val: seq![
            ("key"@, ValueView::String { val: keys, span }),
            (
                "options"@,
                match options {
                    None => ValueView::Nothing { span },
                    Some(text) => ValueView::String { val: text@, span },
                },
            ),
        ],
        span,
    }
}

/// The rows for a run of indexes.
pub open spec fn index_rows(indexes: Seq<(String, Option<String>)>, span: Span) -> Seq<ValueView> {
    Seq::new(indexes.len(), |i: int| index_row(indexes[i].0@, indexes[i].1, span))
}

} // verus!
