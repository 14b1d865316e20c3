//! `mongoc delete-many`: deletes every document of a collection that matches a query.

use crate::value::{Span, Value, ValueView};
use vstd::prelude::*;

verus! {

/// Deletes every document of a collection that matches a query.
#[derive(Clone, Copy, Debug)]
pub struct DeleteMany;

impl DeleteMany {
    /// The name under which the shell calls the command.
    pub fn name(&self) -> (r: &'static str)
        ensures
            r@ == "mongoc delete-many"@,
    {
        "mongoc delete-many"
    }

    /// One line on what the command does.
    pub fn description(&self) -> (r: &'static str)
        ensures
            r@ == "delete many mongodb documents"@,
    {
        "delete many mongodb documents"
    }

    /// What the command hands back to the shell once the driver is done:
    /// nothing, at the place of the command.
    pub fn output(&self, head: Span) -> (v: Value)
        ensures
            v@ == (ValueView::Nothing { span: head }),
    {
        Value::Nothing { span: head }
    }
}

} // verus!
