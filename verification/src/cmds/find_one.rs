//! `mongoc find-one`: finds one document of a collection that matches a query.

use crate::cmds::val_converter::{doc_to_value, record_of};
use crate::document::Document;
use crate::value::{Span, Value, ValueView};
use vstd::prelude::*;

verus! {

/// Finds one document of a collection that matches a query.
#[derive(Clone, Copy, Debug)]
pub struct FindOne;

impl FindOne {
    /// The name under which the shell calls the command.
    pub fn name(&self) -> (r: &'static str)
        ensures
            r@ == "mongoc find-one"@,
    {
        "mongoc find-one"
    }

    /// One line on what the command does.
    pub fn description(&self) -> (r: &'static str)
        ensures
            r@ == "find mongodb documents"@,
    {
        "find mongodb documents"
    }

    /// What the command hands back to the shell: the record for the
    /// document found, or nothing where none was found, at the place of
    /// the command.
    pub fn output(&self, found: Option<Document>, head: Span) -> (v: Value)
        ensures
            v@ == match found {
                None => ValueView::Nothing { span: head },
                Some(doc) => ValueView::Record { val: record_of(doc@, head), span: head },
            },
    {
        match found {
            None => Value::Nothing { span: head },
            Some(doc) => doc_to_value(doc, head),
        }
    }
}

} // verus!
