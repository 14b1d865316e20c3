//! `mongoc estimated`: estimates the number of documents in a collection.

use crate::cmds::count::{wrap, wrapped};
use crate::value::{Span, Value, ValueView};
use vstd::prelude::*;

verus! {

/// Estimates the number of documents in a collection.
#[derive(Clone, Copy, Debug)]
pub struct Estimated;

impl Estimated {
    /// The name under which the shell calls the command.
    pub fn name(&self) -> (r: &'static str)
        ensures
            r@ == "mongoc estimated"@,
    {
        "mongoc estimated"
    }

    /// One line on what the command does.
    pub fn description(&self) -> (r: &'static str)
        ensures
            r@ == "estimated mongodb documents count"@,
    {
        "estimated mongodb documents count"
    }

    /// What the command hands back to the shell: the driver's count as an
    /// integer of the shell, at the place of the command. A count past
    /// the largest such integer wraps round to the negative ones.
    pub fn output(&self, count: u64, head: Span) -> (v: Value)
        ensures
            v@ == (ValueView::Int { val: wrapped(count), span: head }),
    {
        Value::Int { val: wrap(count), span: head }
    }
}

} // verus!
