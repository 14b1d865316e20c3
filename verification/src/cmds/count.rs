//! `mongoc count`: counts the documents of a collection that match a query.

use crate::value::{Span, Value, ValueView};
use vstd::prelude::*;

verus! {

/// Counts the documents of a collection that match a query.
#[derive(Clone, Copy, Debug)]
pub struct Count;

impl Count {
    /// The name under which the shell calls the command.
    pub fn name(&self) -> (r: &'static str)
        ensures
            r@ == "mongoc count"@,
    {
        "mongoc count"
    }

    /// One line on what the command does.
    pub fn description(&self) -> (r: &'static str)
        ensures
            r@ == "count mongodb documents"@,
    {
        "count mongodb documents"
    }

    /// What the shell's help adds below the description.
    pub fn extra_description(&self) -> (r: &'static str)
        ensures
            r@ == "count documents might be slow, if you want to estimate document count, you can run `mongoc estimated`"@,
    {
        "count documents might be slow, if you want to estimate document count, you can run `mongoc estimated`"
    }

    /// What the command hands back to the shell: the driver's count as an
    /// integer of the shell, at the place of the command. A count past
    /// the largest such integer wraps round to the negative ones.
    pub fn output(&self, count: u64, head: Span) -> (v: Value)
        ensures
            v@ == (ValueView::Int { val: wrapped(count), span: head }),
    {
        Value::Int { val: wrap(count), span: head }
    }
}

/// A count as a signed integer of the same sixty-four bits.
pub open spec fn wrapped(count: u64) -> i64 {
    if count <= i64::MAX {
        count as i64
    } else {
        (count - 0x1_0000_0000_0000_0000) as i64
    }
}

/// A count as a signed integer of the same sixty-four bits.
pub fn wrap(count: u64) -> (val: i64)
    ensures
        val == wrapped(count),
{
    if count <= 0x7fff_ffff_ffff_ffff {
        count as i64
    } else {
        let over: u64 = count - 0x8000_0000_0000_0000;
        (over as i64) + i64::MIN
    }
}

} // verus!
