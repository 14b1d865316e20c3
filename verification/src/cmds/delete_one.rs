//! `mongoc delete-one`: deletes one document of a collection that matches a query.

use crate::value::{Span, Value, ValueView};
use vstd::prelude::*;

verus! {

/// Deletes one document of a collection that matches a query.
#[derive(Clone, Copy, Debug)]
pub struct DeleteOne;

impl DeleteOne {
    /// The name under which the shell calls the command.
    pub fn name(&self) -> (r: &'static str)
        ensures
            r@ == "mongoc delete-one"@,
    {
        "mongoc delete-one"
    }

    /// One line on what the command does.
    pub fn description(&self) -> (r: &'static str)
        ensures
            r@ == "delete one mongodb document"@,
    {
        "delete one mongodb document"
    }

    /// What the command hands back to the shell once the driver is done:
    /// nothing, at the place of the command.
    pub fn output(&self, head: Span) -> (v: Value)
        ensures
            v@ == (ValueView::Nothing { span: head }),
    {
        Value::Nothing { span: head }
    }
}

} // verus!
