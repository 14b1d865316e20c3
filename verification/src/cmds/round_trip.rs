//! What comes back when a value goes to BSON and returns.
//!
//! A value made of integers, floats, booleans, binary data, timestamps,
//! texts that do not claim to be object identifiers, and lists and records
//! of such values comes back as it was, but for the place it is given and
//! for what its timestamps hold below the millisecond. A text that claims
//! to be an object identifier comes back as the identifier's hex digits,
//! without the claim.

use crate::cmds::val_converter::{
    array_of, bson_of, bson_of_text, document_of, record_of, value_of, ConversionErrorView,
    OBJECT_ID_PREFIX,
};
use crate::document::{distinct_keys, lemma_key_index, BsonView};
use crate::oid;
use crate::time::{chrono_has_second, millis_of, representable};
use crate::value::{Span, ValueView};
use vstd::prelude::*;

verus! {

/// `v` with every part of it placed at `span`, and every timestamp cut off
/// at the millisecond.
pub open spec fn settled(v: ValueView, span: Span) -> ValueView
    decreases v,
{
    match v {
        ValueView::Nothing { span: _ } => ValueView::Nothing { span },
        ValueView::Int { val, span: _ } => ValueView::Int { val, span },
        ValueView::Float { bits, span: _ } => ValueView::Float { bits, span },
        ValueView::Bool { val, span: _ } => ValueView::Bool { val, span },
        ValueView::String { val, span: _ } => ValueView::String { val, span },
        ValueView::Glob { val, no_expand, span: _ } => ValueView::Glob { val, no_expand, span },
        ValueView::Date { secs, nanos, span: _ } => ValueView::Date {
            secs: millis_of(secs, nanos) / 1000,
            nanos: (millis_of(secs, nanos) % 1000) * 1_000_000,
            span,
        },
        ValueView::Binary { val, span: _ } => ValueView::Binary { val, span },
        ValueView::List { vals, span: _ } => ValueView::List {
            vals: Seq::new(
                vals.len(),
                |i: int|
                    if 0 <= i < vals.len() {
                        settled(vals[i], span)
                    } else {
                        ValueView::Nothing { span }
                    },
            ),
            span,
        },
        ValueView::Record { val, span: _ } => ValueView::Record {
            val: settled_fields(val, span),
            span,
        },
        ValueView::Other { kind, span: _ } => ValueView::Other { kind, span },
    }
}

/// The fields of a record, each value settled.
pub open spec fn settled_fields(fields: Seq<(Seq<char>, ValueView)>, span: Span) -> Seq<
    (Seq<char>, ValueView),
>
    decreases fields,
{
    Seq::new(
        fields.len(),
        |i: int|
            if 0 <= i < fields.len() {
                (fields[i].0, settled(fields[i].1, span))
            } else {
                (Seq::empty(), ValueView::Nothing { span })
            },
    )
}

/// Whether `v` is made of what goes to BSON and comes back: integers,
/// floats, booleans, binary data, texts that do not claim to be object
/// identifiers, timestamps whose millisecond `chrono` reaches, and lists
/// and records of such values, no record with a key twice.
pub open spec fn survives(v: ValueView) -> bool
    decreases v,
{
    match v {
        ValueView::Int { .. } => true,
        ValueView::Float { .. } => true,
        ValueView::Bool { .. } => true,
        ValueView::Binary { .. } => true,
        ValueView::String { val, span } => !OBJECT_ID_PREFIX@.is_prefix_of(val),
        ValueView::Date { secs, nanos, span } => chrono_has_second(millis_of(secs, nanos) / 1000),
        ValueView::List { vals, span } => forall|i: int|
            0 <= i < vals.len() ==> survives(#[trigger] vals[i]),
        ValueView::Record { val, span } => fields_survive(val),
        ValueView::Nothing { .. } => false,
        ValueView::Glob { .. } => false,
        ValueView::Other { .. } => false,
    }
}

/// Whether the fields of a record go to BSON and come back: no key
/// twice, and every value of the kind that does.
pub open spec fn fields_survive(fields: Seq<(Seq<char>, ValueView)>) -> bool
    decreases fields,
{
    &&& distinct_keys(fields)
    &&& forall|i: int| 0 <= i < fields.len() ==> survives((#[trigger] fields[i]).1)
}

/// A list whose items all have a BSON form has the list of those forms
/// as its own.
pub proof fn lemma_array_ok(vals: Seq<ValueView>)
    requires
        forall|i: int| 0 <= i < vals.len() ==> bson_of(#[trigger] vals[i]) is Ok,
    ensures
        array_of(vals) matches Ok(items) && items.len() == vals.len() && forall|i: int|
            0 <= i < vals.len() ==> bson_of(vals[i]) == Ok::<BsonView, ConversionErrorView>(
                #[trigger] items[i],
            ),
    decreases vals.len(),
{
    if vals.len() > 0 {
        lemma_array_ok(vals.drop_last());
    }
}

/// A record without a key twice, whose values all have a BSON form, has
/// the document of those forms under the same keys, in the same order.
pub proof fn lemma_document_ok(fields: Seq<(Seq<char>, ValueView)>)
    requires
        distinct_keys(fields),
        forall|i: int| 0 <= i < fields.len() ==> bson_of((#[trigger] fields[i]).1) is Ok,
    ensures
        document_of(fields) matches Ok(d) && d.len() == fields.len() && forall|i: int|
            0 <= i < fields.len() ==> (#[trigger] d[i]).0 == fields[i].0 && bson_of(fields[i].1)
                == Ok::<BsonView, ConversionErrorView>(d[i].1),
    decreases fields.len(),
{
    if fields.len() > 0 {
        let front = fields.drop_last();
        lemma_document_ok(front);
        // The last key is none of the keys before it, so it comes last in the document.
        lemma_key_index(document_of(front)->Ok_0, fields.last().0);
    }
}

/// A value of the kind that survives has a BSON form, and the shell's value
/// for that form is the value itself, settled.
pub proof fn lemma_round_trip(v: ValueView, span: Span)
    requires
        survives(v),
    ensures
        bson_of(v) matches Ok(b) && value_of(b, span) == settled(v, span),
    decreases v, 0nat,
{
    match v {
        ValueView::List { vals, span: _ } => {
            assert forall|i: int| 0 <= i < vals.len() implies bson_of(#[trigger] vals[i]) is Ok
                && value_of(bson_of(vals[i])->Ok_0, span) == settled(vals[i], span) by {
                lemma_round_trip(vals[i], span);
            }
            lemma_array_ok(vals);
            let items = array_of(vals)->Ok_0;
            assert(value_of(BsonView::Array(items), span)->vals =~= settled(v, span)->vals);
        },
        ValueView::Record { val, span: _ } => {
            lemma_fields_round_trip(val, span);
        },
        _ => {},
    }
}

/// A record of the kind that survives has a document, and the record for
/// that document has the same fields, each value settled.
pub proof fn lemma_fields_round_trip(fields: Seq<(Seq<char>, ValueView)>, span: Span)
    requires
        fields_survive(fields),
    ensures
        document_of(fields) matches Ok(d) && record_of(d, span) == settled_fields(fields, span),
    decreases fields, 1nat,
{
    assert forall|i: int| 0 <= i < fields.len() implies bson_of((#[trigger] fields[i]).1) is Ok
        && value_of(bson_of(fields[i].1)->Ok_0, span) == settled(fields[i].1, span) by {
        lemma_round_trip(fields[i].1, span);
    }
    lemma_document_ok(fields);
}

/// Whether settling at `span` would change nothing: every part of `v` is
/// placed at `span`, and every timestamp stands on a whole millisecond
/// outside a leap second.
pub open spec fn is_settled(v: ValueView, span: Span) -> bool
    decreases v,
{
    match v {
        ValueView::Nothing { span: at } => at == span,
        ValueView::Int { val, span: at } => at == span,
        ValueView::Float { bits, span: at } => at == span,
        ValueView::Bool { val, span: at } => at == span,
        ValueView::String { val, span: at } => at == span,
        ValueView::Glob { val, no_expand, span: at } => at == span,
        ValueView::Date { secs, nanos, span: at } => at == span && 0 <= nanos < 1_000_000_000
            && nanos % 1_000_000 == 0,
        ValueView::Binary { val, span: at } => at == span,
        ValueView::List { vals, span: at } => at == span && forall|i: int|
            0 <= i < vals.len() ==> is_settled(#[trigger] vals[i], span),
        ValueView::Record { val, span: at } => at == span && forall|i: int|
            0 <= i < val.len() ==> is_settled((#[trigger] val[i]).1, span),
        ValueView::Other { kind, span: at } => at == span,
    }
}

/// Settling a value that is settled gives the value itself.
pub proof fn lemma_settled_same(v: ValueView, span: Span)
    requires
        is_settled(v, span),
    ensures
        settled(v, span) == v,
    decreases v,
{
    match v {
        ValueView::Date { secs, nanos, span: _ } => {
            lemma_millis_second(secs, nanos);
        },
        ValueView::List { vals, span: _ } => {
            assert forall|i: int| 0 <= i < vals.len() implies settled(vals[i], span)
                == #[trigger] vals[i] by {
                lemma_settled_same(vals[i], span);
            }
            assert(settled(v, span)->vals =~= vals);
        },
        ValueView::Record { val, span: _ } => {
            assert forall|i: int| 0 <= i < val.len() implies settled_fields(val, span)[i]
                == #[trigger] val[i] by {
                lemma_settled_same(val[i].1, span);
            }
            assert(settled_fields(val, span) =~= val);
        },
        _ => {},
    }
}

/// A value of the kind that survives, every part of it placed at `span`
/// and its timestamps on whole milliseconds, goes to BSON and comes back
/// at `span` as the very same value.
pub proof fn lemma_round_trip_same(v: ValueView, span: Span)
    requires
        survives(v),
        is_settled(v, span),
    ensures
        bson_of(v) matches Ok(b) && value_of(b, span) == v,
{
    lemma_round_trip(v, span);
    lemma_settled_same(v, span);
}

/// Settling a timestamp keeps its milliseconds: what comes back is the
/// same instant at the precision of a millisecond.
pub proof fn lemma_settled_millis(secs: int, nanos: int)
    ensures
        millis_of(millis_of(secs, nanos) / 1000, (millis_of(secs, nanos) % 1000) * 1_000_000)
            == millis_of(secs, nanos),
{
}

/// The millisecond of an instant that is no leap second lies in the
/// instant's own second: where `chrono` holds the instant, it reaches
/// the millisecond.
pub proof fn lemma_millis_second(secs: int, nanos: int)
    requires
        0 <= nanos < 1_000_000_000,
    ensures
        millis_of(secs, nanos) / 1000 == secs,
        millis_of(secs, nanos) % 1000 == nanos / 1_000_000,
{
    let ms = nanos / 1_000_000;
    assert((secs * 1000 + ms) / 1000 == secs && (secs * 1000 + ms) % 1000 == ms) by (
        nonlinear_arith)
        requires
            0 <= ms < 1000,
    ;
}

/// A timestamp outside a leap second that `chrono` holds is of the kind
/// that survives.
pub proof fn lemma_instant_survives(secs: int, nanos: int, span: Span)
    requires
        representable(secs, nanos),
        nanos < 1_000_000_000,
    ensures
        survives(ValueView::Date { secs, nanos, span }),
{
    lemma_millis_second(secs, nanos);
}

/// An object identifier as the shell is shown it, with the claim put in
/// front, is read as the same identifier again.
pub proof fn lemma_object_id_reads_back(id: Seq<u8>, span: Span)
    requires
        id.len() == 12,
    ensures
        bson_of_text(OBJECT_ID_PREFIX@ + oid::hex_text(id), span) == Ok::<
            BsonView,
            ConversionErrorView,
        >(BsonView::ObjectId(id)),
{
    let text = OBJECT_ID_PREFIX@ + oid::hex_text(id);
    oid::lemma_hex_round_trip(id);
    assert(text.skip(OBJECT_ID_PREFIX@.len() as int) =~= oid::hex_text(id));
}

/// A text that claims to be an object identifier, and is one, comes back
/// as the identifier's digits in lower case, without the claim.
pub proof fn lemma_object_id_comes_back_bare(text: Seq<char>, span: Span)
    requires
        OBJECT_ID_PREFIX@.is_prefix_of(text),
        oid::is_hex_id(text.skip(OBJECT_ID_PREFIX@.len() as int)),
    ensures
        bson_of_text(text, span) matches Ok(b) && b is ObjectId && value_of(b, span) == (
        ValueView::String {
            val: oid::hex_text(oid::hex_bytes(text.skip(OBJECT_ID_PREFIX@.len() as int))),
            span,
        }),
        value_of(bson_of_text(text, span)->Ok_0, span) != (ValueView::String { val: text, span }),
{
    reveal_strlit("ObjectId");
}

} // verus!
