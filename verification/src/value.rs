//! The shell's values, as far as a conversion reads them.

use crate::time::Timestamp;
use vstd::prelude::*;

verus! {

/// A stretch of the shell's source text, by which a value is traced back
/// to where the user wrote it.
#[derive(Clone, Copy, Debug, PartialEq, Eq, Structural)]
pub struct Span {
    pub start: usize,
    pub end: usize,
}

impl Span {
    pub fn new(start: usize, end: usize) -> (s: Span)
        ensures
            s == (Span { start, end }),
    {
        Span { start, end }
    }

    /// The span of a value that no source text stands for.
    pub open spec fn spec_unknown() -> Span {
        Span { start: 0, end: 0 }
    }

    #[verifier::when_used_as_spec(spec_unknown)]
    pub fn unknown() -> (s: Span)
        ensures
            s == Span::spec_unknown(),
    {
        Span { start: 0, end: 0 }
    }
}

/// An integer that the user wrote, with the place where it stands.
#[derive(Clone, Copy, Debug, PartialEq, Eq, Structural)]
pub struct Spanned {
    pub item: i64,
    pub span: Span,
}

/// A value of the shell. A float is held by the bits of its IEEE 754
/// double; a variant that no document can hold keeps only the name of its
/// type.
#[allow(inconsistent_fields)]
#[derive(Debug, PartialEq, Eq)]
pub enum Value {
    Nothing { span: Span },
    Int { val: i64, span: Span },
    Float { bits: u64, span: Span },
    Bool { val: bool, span: Span },
    String { val: String, span: Span },
    Glob { val: String, no_expand: bool, span: Span },
    Date { val: Timestamp, span: Span },
    Binary { val: Vec<u8>, span: Span },
    List { vals: Vec<Value>, span: Span },
    Record { val: Record, span: Span },
    Other { kind: String, span: Span },
}

/// The fields of a record, in the order in which they were pushed.
#[derive(Debug, PartialEq, Eq)]
pub struct Record {
    pub entries: Vec<(String, Value)>,
}

/// What a [`Value`] holds, as mathematics sees it.
#[allow(inconsistent_fields)]
pub ghost enum ValueView {
    Nothing { span: Span },
    Int { val: i64, span: Span },
    Float { bits: u64, span: Span },
    Bool { val: bool, span: Span },
    String { val: Seq<char>, span: Span },
    Glob { val: Seq<char>, no_expand: bool, span: Span },
    Date { secs: int, nanos: int, span: Span },
    Binary { val: Seq<u8>, span: Span },
    List { vals: Seq<ValueView>, span: Span },
    Record { val: Seq<(Seq<char>, ValueView)>, span: Span },
    Other { kind: Seq<char>, span: Span },
}

/// What `v` holds.
pub open spec fn value_view(v: Value) -> ValueView
    decreases v,
{
    match v {
        Value::Nothing { span } => ValueView::Nothing { span },
        Value::Int { val, span } => ValueView::Int { val, span },
        Value::Float { bits, span } => ValueView::Float { bits, span },
        Value::Bool { val, span } => ValueView::Bool { val, span },
        Value::String { val, span } => ValueView::String { val: val@, span },
        Value::Glob { val, no_expand, span } => ValueView::Glob { val: val@, no_expand, span },
        Value::Date { val, span } => ValueView::Date { secs: val.secs(), nanos: val.nanos(), span },
        Value::Binary { val, span } => ValueView::Binary { val: val@, span },
        Value::List { vals, span } => ValueView::List {
            vals: Seq::new(
                vals@.len(),
                |i: int|
                    if 0 <= i < vals@.len() {
                        value_view(vals@[i])
                    } else {
                        ValueView::Nothing { span }
                    },
            ),
            span,
        },
        Value::Record { val, span } => ValueView::Record { val: record_view(val), span },
        Value::Other { kind, span } => ValueView::Other { kind: kind@, span },
    }
}

/// The fields of `r`, in order.
pub open spec fn record_view(r: Record) -> Seq<(Seq<char>, ValueView)>
    decreases r,
{
    Seq::new(
        r.entries@.len(),
        |i: int|
            if 0 <= i < r.entries@.len() {
                (r.entries@[i].0@, value_view(r.entries@[i].1))
            } else {
                (Seq::empty(), ValueView::Nothing { span: Span::spec_unknown() })
            },
    )
}

impl View for Value {
    type V = ValueView;

    open spec fn view(&self) -> ValueView {
        value_view(*self)
    }
}

impl View for Record {
    type V = Seq<(Seq<char>, ValueView)>;

    open spec fn view(&self) -> Seq<(Seq<char>, ValueView)> {
        record_view(*self)
    }
}

impl Record {
    /// The record without fields.
    pub fn new() -> (r: Record)
        ensures
            r@ == Seq::<(Seq<char>, ValueView)>::empty(),
    {
        Record { entries: Vec::new() }
    }

    /// Adds a field behind the others. A key that is there already is
    /// not looked for.
    pub fn push(&mut self, key: String, val: Value)
        ensures
            final(self)@ == old(self)@.push((key@, val@)),
    {
        self.entries.push((key, val));
    }

    /// The number of fields.
    pub fn len(&self) -> (n: usize)
        ensures
            n == self@.len(),
    {
        self.entries.len()
    }
}

} // verus!
