//! `mongoc list-colls`: lists the names of a database's collections.

use crate::value::{Span, Value, ValueView};
use vstd::prelude::*;

verus! {

/// Lists the names of a database's collections.
#[derive(Clone, Copy, Debug)]
pub struct ListCollectionNames;

impl ListCollectionNames {
    /// The name under which the shell calls the command.
    pub fn name(&self) -> (r: &'static str)
        ensures
            r@ == "mongoc list-colls"@,
    {
        "mongoc list-colls"
    }

    /// One line on what the command does.
    pub fn description(&self) -> (r: &'static str)
        ensures
            r@ == "list all available collection names"@,
    {
        "list all available collection names"
    }

    /// What the command hands back to the shell: the names as a list of
    /// texts, in the driver's order, at the place of the command.
    pub fn output(&self, names: Vec<String>, head: Span) -> (v: Value)
        ensures
            v@ == (ValueView::List { vals: texts_of(names@, head), span: head }),
    {
        let ghost all = names@;
        let mut rows: Vec<Value> = Vec::new();
        for name in it: names.into_iter()
            invariant
                it.seq() == all,
                rows@.len() == it.index(),
                forall|i: int|
                    0 <= i < rows@.len() ==> (#[trigger] rows@[i])@ == texts_of(all, head)[i],
        {
            rows.push(Value::String { val: name, span: head });
        }
        let v = Value::List { vals: rows, span: head };
        assert(v@->vals =~= texts_of(all, head));
        v
    }
}

/// The shell's texts for a run of names, each placed at `span`.
pub open spec fn texts_of(names: Seq<String>, span: Span) -> Seq<ValueView> {
    Seq::new(names.len(), |i: int| ValueView::String { val: names[i]@, span })
}

} // verus!
