//! `mongoc drop`: drops a collection.

use crate::value::{Span, Value, ValueView};
use vstd::prelude::*;

verus! {

/// Drops a collection.
#[derive(Clone, Copy, Debug)]
pub struct Drop;

impl Drop {
    /// The name under which the shell calls the command.
    pub fn name(&self) -> (r: &'static str)
        ensures
            r@ == "mongoc drop"@,
    {
        "mongoc drop"
    }

    /// One line on what the command does.
    pub fn description(&self) -> (r: &'static str)
        ensures
            r@ == "drop a mongodb collection"@,
    {
        "drop a mongodb collection"
    }

    /// What the command hands back to the shell once the driver is done:
    /// nothing, at the place of the command.
    pub fn output(&self, head: Span) -> (v: Value)
        ensures
            v@ == (ValueView::Nothing { span: head }),
    {
        Value::Nothing { span: head }
    }
}

} // verus!
