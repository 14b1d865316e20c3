//! `mongoc find`: finds the documents of a collection that match a query.

use crate::cmds::val_converter::{doc_to_value, record_of};
use crate::document::Document;
use crate::value::{Span, Spanned, Value, ValueView};
use vstd::prelude::*;

verus! {

/// Finds the documents of a collection that match a query.
#[derive(Clone, Copy, Debug)]
pub struct Find;

impl Find {
    /// The name under which the shell calls the command.
    pub fn name(&self) -> (r: &'static str)
        ensures
            r@ == "mongoc find"@,
    {
        "mongoc find"
    }

    /// One line on what the command does.
    pub fn description(&self) -> (r: &'static str)
        ensures
            r@ == "find mongodb documents"@,
    {
        "find mongodb documents"
    }

    /// The number of documents to ask the driver for: what the user
    /// wrote, or 10 where the user wrote nothing. A negative number is
    /// refused, with the place where it stands.
    pub fn limit(&self, limit: Option<Spanned>) -> (r: Result<i64, NegativeLimit>)
        ensures
            r == match limit {
                None => Ok::<i64, NegativeLimit>(DEFAULT_LIMIT),
                Some(chosen) => if chosen.item < 0 {
                    Err::<i64, NegativeLimit>(NegativeLimit { span: chosen.span })
                } else {
                    Ok::<i64, NegativeLimit>(chosen.item)
                },
            },
    {
        match limit {
            None => Ok(DEFAULT_LIMIT),
            Some(chosen) => if chosen.item < 0 {
                Err(NegativeLimit { span: chosen.span })
            } else {
                Ok(chosen.item)
            },
        }
    }

    /// What the command hands back to the shell: the list of the records
    /// for the documents found, in the driver's order, every part of it
    /// at the place of the command.
    pub fn output(&self, docs: Vec<Document>, head: Span) -> (v: Value)
        ensures
            v@ == (ValueView::List { vals: rows_of(docs@, head), span: head }),
    {
        let ghost all = docs@;
        let mut rows: Vec<Value> = Vec::new();
        for doc in it: docs.into_iter()
            invariant
                it.seq() == all,
                rows@.len() == it.index(),
                forall|i: int|
                    0 <= i < rows@.len() ==> (#[trigger] rows@[i])@ == rows_of(all, head)[i],
        {
            let row = doc_to_value(doc, head);
            rows.push(row);
        }
        let v = Value::List { vals: rows, span: head };
        assert(v@->vals =~= rows_of(all, head));
        v
    }
}

/// The number of documents that a search asks for where the user names
/// none.
pub const DEFAULT_LIMIT: i64 = 10;

/// A limit below zero, with the place where the user wrote it.
#[derive(Clone, Copy, Debug, PartialEq, Eq, Structural)]
pub struct NegativeLimit {
    pub span: Span,
}

impl NegativeLimit {
    /// What went wrong, in a line.
    pub fn message(&self) -> (r: &'static str)
        ensures
            r@ == "get invalid number"@,
    {
        "get invalid number"
    }

    /// The note for the place where the limit stands, and that place.
    pub fn label(&self) -> (r: (&'static str, Span))
        ensures
            r.0@ == "can't be negative"@,
            r.1 == self.span,
    {
        ("can't be negative", self.span)
    }
}

/// The records for a run of documents, each placed at `span`.
pub open spec fn rows_of(docs: Seq<Document>, span: Span) -> Seq<ValueView> {
    Seq::new(docs.len(), |i: int| ValueView::Record { val: record_of(docs[i]@, span), span })
}

} // verus!
