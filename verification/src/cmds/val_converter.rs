//! The mapping between the shell's values and BSON documents.
//!
//! A document always becomes a record. A record becomes a document unless
//! one of its values has no BSON form, or is a text that claims to be an
//! object identifier and is none.

use crate::document::{put, Bson, BsonView, Document, BINARY_GENERIC};
use crate::oid;
use crate::time::{instant_of_millis, millis_of, Timestamp};
use crate::value::{Record, Span, Value, ValueView};
use vstd::prelude::*;
use vstd::string::StringExecFns;

verus! {

/// The letters by which a text claims to be an object identifier.
pub const OBJECT_ID_PREFIX: &'static str = "ObjectId";

/// The name of the kind of value that stands for nothing at all.
pub const NOTHING_KIND: &'static str = "nothing";

/// What the user is told of a value of a kind without a BSON form.
pub const UNSUPPORTED: &'static str = "can't convert to mongo doc";

/// What stands before the name of the kind in the note on such a value.
pub const UNSUPPORTED_NOTE: &'static str = "invalid value type: ";

/// What the user is told of a text that wrongly claims to be an object
/// identifier.
pub const INVALID_OBJECT_ID: &'static str = "invalid ObjectId";

/// Why a value has no BSON form.
#[derive(Debug, PartialEq, Eq)]
pub enum ConversionError {
    /// The value is of a kind that BSON has no counterpart for.
    UnsupportedType { kind: String, span: Span },
    /// The text starts like an object identifier and is none.
    InvalidObjectId { text: String, error: String, span: Span },
}

/// What a [`ConversionError`] holds.
pub ghost enum ConversionErrorView {
    UnsupportedType { kind: Seq<char>, span: Span },
    InvalidObjectId { text: Seq<char>, error: Seq<char>, span: Span },
}

impl View for ConversionError {
    type V = ConversionErrorView;

    open spec fn view(&self) -> ConversionErrorView {
        match self {
            ConversionError::UnsupportedType {
                kind,
                span,
            } => ConversionErrorView::UnsupportedType { kind: kind@, span: *span },
            ConversionError::InvalidObjectId {
                text,
                error,
                span,
            } => ConversionErrorView::InvalidObjectId { text: text@, error: error@, span: *span },
        }
    }
}

impl ConversionError {
    /// What went wrong, in a line.
    pub fn message(&self) -> (r: &'static str)
        ensures
            r@ == match self {
                ConversionError::UnsupportedType { .. } => UNSUPPORTED@,
                ConversionError::InvalidObjectId { .. } => INVALID_OBJECT_ID@,
            },
    {
        match self {
            ConversionError::UnsupportedType { .. } => UNSUPPORTED,
            ConversionError::InvalidObjectId { .. } => INVALID_OBJECT_ID,
        }
    }

    /// The note for the value that the error is about, and the place of
    /// that value: the kind of a value without a BSON form, or what the
    /// reader of object identifiers said.
    pub fn label(&self) -> (r: (String, Span))
        ensures
            match self {
                ConversionError::UnsupportedType { kind, span } => r.0@
                    == UNSUPPORTED_NOTE@ + kind@ && r.1 == span,
                ConversionError::InvalidObjectId { text, error, span } => r.0@ == error@ && r.1
                    == span,
            },
    {
        match self {
            ConversionError::UnsupportedType { kind, span } => (
                UNSUPPORTED_NOTE.to_owned().concat(kind.as_str()),
                *span,
            ),
            ConversionError::InvalidObjectId { text, error, span } => (error.clone(), *span),
        }
    }
}

/// The shell's value for a BSON value, every part of it placed at `span`.
pub open spec fn value_of(b: BsonView, span: Span) -> ValueView
    decreases b,
{
    match b {
        BsonView::Null => ValueView::Nothing { span },
        BsonView::Double { bits } => ValueView::Float { bits, span },
        BsonView::String(s) => ValueView::String { val: s, span },
        BsonView::Boolean(v) => ValueView::Bool { val: v, span },
        BsonView::Int32(i) => ValueView::Int { val: i as i64, span },
        BsonView::Int64(i) => ValueView::Int { val: i, span },
        BsonView::ObjectId(id) => ValueView::String { val: oid::hex_text(id), span },
        BsonView::Document(d) => ValueView::Record { val: record_of(d, span), span },
        BsonView::DateTime { millis } => ValueView::Date {
            secs: instant_of_millis(millis).0,
            nanos: instant_of_millis(millis).1,
            span,
        },
        BsonView::Binary { subtype, bytes } => ValueView::Binary { val: bytes, span },
        BsonView::Array(items) => ValueView::List {
            vals: Seq::new(
                items.len(),
                |i: int|
                    if 0 <= i < items.len() {
                        value_of(items[i], span)
                    } else {
                        ValueView::Nothing { span }
                    },
            ),
            span,
        },
        BsonView::Other { text } => ValueView::String { val: text, span },
    }
}

/// The record for a document: the same keys in the same order, each with
/// the shell's value for its BSON value.
pub open spec fn record_of(d: Seq<(Seq<char>, BsonView)>, span: Span) -> Seq<
    (Seq<char>, ValueView),
>
    decreases d,
{
    Seq::new(
        d.len(),
        |i: int|
            if 0 <= i < d.len() {
                (d[i].0, value_of(d[i].1, span))
            } else {
                (Seq::empty(), ValueView::Nothing { span })
            },
    )
}

/// The BSON value for a text: an object identifier where the text claims
/// to be one, the text itself otherwise.
pub open spec fn bson_of_text(text: Seq<char>, span: Span) -> Result<
    BsonView,
    ConversionErrorView,
> {
    if OBJECT_ID_PREFIX@.is_prefix_of(text) {
        let digits = text.skip(OBJECT_ID_PREFIX@.len() as int);
        if oid::is_hex_id(digits) {
            Ok(BsonView::ObjectId(oid::hex_bytes(digits)))
        } else {
            Err(
                ConversionErrorView::InvalidObjectId {
                    text,
                    error: oid::parse_error_message(digits),
                    span,
                },
            )
        }
    } else {
        Ok(BsonView::String(text))
    }
}

/// The BSON value for a value of the shell, or why it has none.
pub open spec fn bson_of(v: ValueView) -> Result<BsonView, ConversionErrorView>
    decreases v, 0nat,
{
    match v {
        ValueView::Record { val, span } => match document_of(val) {
            Ok(d) => Ok(BsonView::Document(d)),
            Err(e) => Err(e),
        },
        ValueView::Int { val, span } => Ok(BsonView::Int64(val)),
        ValueView::Bool { val, span } => Ok(BsonView::Boolean(val)),
        ValueView::Float { bits, span } => Ok(BsonView::Double { bits }),
        ValueView::String { val, span } => bson_of_text(val, span),
        ValueView::Glob { val, no_expand, span } => bson_of_text(val, span),
        ValueView::Date { secs, nanos, span } => Ok(
            BsonView::DateTime { millis: millis_of(secs, nanos) },
        ),
        ValueView::Binary { val, span } => Ok(
            BsonView::Binary { subtype: BINARY_GENERIC, bytes: val },
        ),
        ValueView::List { vals, span } => match array_of(vals) {
            Ok(items) => Ok(BsonView::Array(items)),
            Err(e) => Err(e),
        },
        ValueView::Nothing { span } => Err(
            ConversionErrorView::UnsupportedType { kind: NOTHING_KIND@, span },
        ),
        ValueView::Other { kind, span } => Err(ConversionErrorView::UnsupportedType { kind, span }),
    }
}

/// The BSON values for the items of a list, or the error of the first
/// item that has none.
pub open spec fn array_of(vals: Seq<ValueView>) -> Result<Seq<BsonView>, ConversionErrorView>
    decreases vals, 1nat,
{
    if vals.len() == 0 {
        Ok(Seq::empty())
    } else {
        match array_of(vals.drop_last()) {
            Err(e) => Err(e),
            Ok(items) => match bson_of(vals.last()) {
                Err(e) => Err(e),
                Ok(b) => Ok(items.push(b)),
            },
        }
    }
}

/// The document for the fields of a record, set one after the other, or
/// the error of the first field whose value has no BSON form.
pub open spec fn document_of(fields: Seq<(Seq<char>, ValueView)>) -> Result<
    Seq<(Seq<char>, BsonView)>,
    ConversionErrorView,
>
    decreases fields, 1nat,
{
    if fields.len() == 0 {
        Ok(Seq::empty())
    } else {
        match document_of(fields.drop_last()) {
            Err(e) => Err(e),
            Ok(d) => match bson_of(fields.last().1) {
                Err(e) => Err(e),
                Ok(b) => Ok(put(d, fields.last().0, b)),
            },
        }
    }
}

/// Whether a text has a BSON form: every text but one that claims to be
/// an object identifier and is none.
pub open spec fn text_converts(text: Seq<char>) -> bool {
    OBJECT_ID_PREFIX@.is_prefix_of(text) ==> oid::is_hex_id(
        text.skip(OBJECT_ID_PREFIX@.len() as int),
    )
}

/// Whether a value has a BSON form: nowhere in it stands a value of a kind
/// that BSON has no counterpart for, nor a text that claims to be an
/// object identifier and is none.
pub open spec fn converts(v: ValueView) -> bool
    decreases v,
{
    match v {
        ValueView::Nothing { .. } => false,
        ValueView::Other { .. } => false,
        ValueView::String { val, span } => text_converts(val),
        ValueView::Glob { val, no_expand, span } => text_converts(val),
        ValueView::List { vals, span } => forall|i: int|
            0 <= i < vals.len() ==> converts(#[trigger] vals[i]),
        ValueView::Record { val, span } => forall|i: int|
            0 <= i < val.len() ==> converts((#[trigger] val[i]).1),
        _ => true,
    }
}

/// A list has a BSON form exactly when each of its items has one.
pub proof fn lemma_array_converts(vals: Seq<ValueView>)
    ensures
        array_of(vals) is Ok <==> forall|i: int|
            0 <= i < vals.len() ==> bson_of(#[trigger] vals[i]) is Ok,
        array_of(vals) matches Ok(items) ==> items.len() == vals.len(),
    decreases vals.len(),
{
    if vals.len() > 0 {
        let front = vals.drop_last();
        lemma_array_converts(front);
        if array_of(vals) is Ok {
            assert forall|i: int| 0 <= i < vals.len() implies bson_of(#[trigger] vals[i]) is Ok by {
                if i < front.len() {
                    assert(front[i] == vals[i]);
                }
            }
        }
    }
}

/// A record has a document exactly when each of its values has a BSON
/// form.
pub proof fn lemma_document_converts(fields: Seq<(Seq<char>, ValueView)>)
    ensures
        document_of(fields) is Ok <==> forall|i: int|
            0 <= i < fields.len() ==> bson_of((#[trigger] fields[i]).1) is Ok,
    decreases fields.len(),
{
    if fields.len() > 0 {
        let front = fields.drop_last();
        lemma_document_converts(front);
        if document_of(fields) is Ok {
            assert forall|i: int| 0 <= i < fields.len() implies bson_of(
                (#[trigger] fields[i]).1,
            ) is Ok by {
                if i < front.len() {
                    assert(front[i] == fields[i]);
                }
            }
        }
    }
}

/// A value has a BSON form exactly when it converts; a value of a kind
/// without a counterpart is refused with the name of its kind and its own
/// place.
pub proof fn lemma_converts(v: ValueView)
    ensures
        bson_of(v) is Ok <==> converts(v),
        v matches ValueView::Nothing { span } ==> bson_of(v) == Err::<
            BsonView,
            ConversionErrorView,
        >(ConversionErrorView::UnsupportedType { kind: NOTHING_KIND@, span }),
        v matches ValueView::Other { kind, span } ==> bson_of(v) == Err::<
            BsonView,
            ConversionErrorView,
        >(ConversionErrorView::UnsupportedType { kind, span }),
    decreases v,
{
    match v {
        ValueView::List { vals, span } => {
            lemma_array_converts(vals);
            assert forall|i: int| 0 <= i < vals.len() implies (bson_of(#[trigger] vals[i]) is Ok
                <==> converts(vals[i])) by {
                lemma_converts(vals[i]);
            }
        },
        ValueView::Record { val, span } => {
            lemma_document_converts(val);
            assert forall|i: int| 0 <= i < val.len() implies (bson_of((#[trigger] val[i]).1) is Ok
                <==> converts(val[i].1)) by {
                lemma_converts(val[i].1);
            }
        },
        _ => {},
    }
}

/// An error among the first items stays the error of the whole list.
pub proof fn lemma_array_error(vals: Seq<ValueView>, n: int)
    requires
        0 <= n <= vals.len(),
        array_of(vals.take(n)) is Err,
    ensures
        array_of(vals) == array_of(vals.take(n)),
    decreases vals.len() - n,
{
    if n < vals.len() {
        let next = vals.take(n + 1);
        assert(next.drop_last() =~= vals.take(n));
        lemma_array_error(vals, n + 1);
    } else {
        assert(vals.take(n) =~= vals);
    }
}

/// An error among the first fields stays the error of the whole record.
pub proof fn lemma_document_error(fields: Seq<(Seq<char>, ValueView)>, n: int)
    requires
        0 <= n <= fields.len(),
        document_of(fields.take(n)) is Err,
    ensures
        document_of(fields) == document_of(fields.take(n)),
    decreases fields.len() - n,
{
    if n < fields.len() {
        let next = fields.take(n + 1);
        assert(next.drop_last() =~= fields.take(n));
        lemma_document_error(fields, n + 1);
    } else {
        assert(fields.take(n) =~= fields);
    }
}

/// Takes `prefix` off the front of `text` with `str::strip_prefix`.
/// Trusted: it gives the rest where the text starts with the prefix, and
/// nothing where it does not.
#[verifier::external_body]
fn strip_prefix<'a>(text: &'a str, prefix: &str) -> (r: Option<&'a str>)
    ensures
        match r {
            Some(rest) => prefix@.is_prefix_of(text@) && rest@ == text@.skip(prefix@.len() as int),
            None => !prefix@.is_prefix_of(text@),
        },
{
    text.strip_prefix(prefix)
}

/// The BSON value for a text: an object identifier where the text claims
/// to be one, the text itself otherwise.
pub fn text_to_bson(text: String, span: Span) -> (r: Result<Bson, ConversionError>)
    ensures
        match r {
            Ok(b) => bson_of_text(text@, span) == Ok::<BsonView, ConversionErrorView>(b@),
            Err(e) => bson_of_text(text@, span) == Err::<BsonView, ConversionErrorView>(e@),
        },
{
    match strip_prefix(text.as_str(), OBJECT_ID_PREFIX) {
        Some(digits) => match oid::parse(digits) {
            Ok(id) => Ok(Bson::ObjectId(id)),
            Err(error) => Err(ConversionError::InvalidObjectId { text, error, span }),
        },
        None => Ok(Bson::String(text)),
    }
}

/// The BSON value for a value of the shell, or why it has none.
pub fn to_bson(v: Value) -> (r: Result<Bson, ConversionError>)
    ensures
        match r {
            Ok(b) => bson_of(v@) == Ok::<BsonView, ConversionErrorView>(b@),
            Err(e) => bson_of(v@) == Err::<BsonView, ConversionErrorView>(e@),
        },
    decreases v, 0nat,
{
    match v {
        Value::Record { val, span } => match value_to_doc(val) {
            Ok(d) => Ok(Bson::Document(d)),
            Err(e) => Err(e),
        },
        Value::Int { val, span } => Ok(Bson::Int64(val)),
        Value::Bool { val, span } => Ok(Bson::Boolean(val)),
        Value::Float { bits, span } => Ok(Bson::Double { bits }),
        Value::String { val, span } => text_to_bson(val, span),
        Value::Glob { val, no_expand, span } => text_to_bson(val, span),
        Value::Date { val, span } => Ok(Bson::DateTime { millis: val.millis() }),
        Value::Binary { val, span } => Ok(Bson::Binary { subtype: BINARY_GENERIC, bytes: val }),
        Value::List { vals, span } => {
            let ghost all = vals@;
            let ghost views = v@->vals;
            let mut items: Vec<Bson> = Vec::new();
            for item in it: vals.into_iter()
                invariant
                    it.seq() == all,
                    v@ is List && v@->vals == views,
                    views.len() == all.len(),
                    forall|i: int| 0 <= i < all.len() ==> views[i] == (#[trigger] all[i])@,
                    forall|i: int| 0 <= i < all.len() ==> decreases_to!(v => #[trigger] all[i]),
                    items@.len() == it.index(),
                    array_of(views.take(it.index())) matches Ok(bs) && bs.len() == items@.len()
                        && forall|i: int| 0 <= i < bs.len() ==> bs[i] == (#[trigger] items@[i])@,
            {
                let ghost n = it.index();
                proof {
                    assert(views.take(n + 1).drop_last() =~= views.take(n));
                }
                match to_bson(item) {
                    Ok(b) => {
                        items.push(b);
                    },
                    Err(e) => {
                        proof {
                            lemma_array_error(views, n + 1);
                        }
                        return Err(e);
                    },
                }
            }
            proof {
                assert(views.take(all.len() as int) =~= views);
            }
            let b = Bson::Array(items);
            assert(b@->Array_0 =~= array_of(views)->Ok_0);
            Ok(b)
        },
        Value::Nothing { span } => Err(
            ConversionError::UnsupportedType { kind: NOTHING_KIND.to_owned(), span },
        ),
        Value::Other { kind, span } => Err(ConversionError::UnsupportedType { kind, span }),
    }
}

/// The document for a record: its fields set one after the other, so that
/// a key that comes again overwrites the value at its first place. Fails
/// with the error of the first field whose value has no BSON form.
pub fn value_to_doc(val: Record) -> (r: Result<Document, ConversionError>)
    ensures
        match r {
            Ok(d) => document_of(val@) == Ok::<Seq<(Seq<char>, BsonView)>, ConversionErrorView>(d@)
                && d.wf(),
            Err(e) => document_of(val@) == Err::<Seq<(Seq<char>, BsonView)>, ConversionErrorView>(
                e@,
            ),
        },
    decreases val, 1nat,
{
    let ghost views = val@;
    let fields = val.entries;
    let ghost all = fields@;
    let mut doc = Document::new();
    for field in it: fields.into_iter()
        invariant
            it.seq() == all,
            views == val@,
            views.len() == all.len(),
            forall|i: int|
                0 <= i < all.len() ==> views[i] == ((#[trigger] all[i]).0@, all[i].1@),
            forall|i: int| 0 <= i < all.len() ==> decreases_to!(val => (#[trigger] all[i]).1),
            doc.wf(),
            document_of(views.take(it.index())) == Ok::<
                Seq<(Seq<char>, BsonView)>,
                ConversionErrorView,
            >(doc@),
    {
        let ghost n = it.index();
        proof {
            assert(views.take(n + 1).drop_last() =~= views.take(n));
        }
        let (key, v) = field;
        match to_bson(v) {
            Ok(b) => {
                doc.insert(key, b);
            },
            Err(e) => {
                proof {
                    lemma_document_error(views, n + 1);
                }
                return Err(e);
            },
        }
    }
    proof {
        assert(views.take(all.len() as int) =~= views);
    }
    Ok(doc)
}

/// The shell's value for a BSON value, placed at `span`.
pub fn bson_to_value(b: Bson, span: Span) -> (v: Value)
    ensures
        v@ == value_of(b@, span),
    decreases b, 0nat,
{
    match b {
        Bson::Null => Value::Nothing { span },
        Bson::Double { bits } => Value::Float { bits, span },
        Bson::String(s) => Value::String { val: s, span },
        Bson::Boolean(v) => Value::Bool { val: v, span },
        Bson::Int32(i) => Value::Int { val: i as i64, span },
        Bson::Int64(i) => Value::Int { val: i, span },
        Bson::ObjectId(id) => Value::String { val: oid::to_hex(&id), span },
        Bson::Document(d) => doc_to_value(d, span),
        Bson::DateTime { millis } => Value::Date { val: Timestamp::from_millis(millis), span },
        Bson::Binary { subtype, bytes } => Value::Binary { val: bytes, span },
        Bson::Array(items) => {
            let ghost all = items@;
            let mut vals: Vec<Value> = Vec::new();
            for item in it: items.into_iter()
                invariant
                    it.seq() == all,
                    forall|i: int| 0 <= i < all.len() ==> decreases_to!(b => #[trigger] all[i]),
                    vals@.len() == it.index(),
                    forall|i: int|
                        0 <= i < vals@.len() ==> (#[trigger] vals@[i])@ == value_of(all[i]@, span),
            {
                let v = bson_to_value(item, span);
                vals.push(v);
            }
            let v = Value::List { vals, span };
            assert(v@->vals =~= value_of(b@, span)->vals);
            v
        },
        Bson::Other { text } => Value::String { val: text, span },
    }
}

/// The record for a document, every part of it placed at `span`: the same
/// keys in the same order, each with the shell's value for its BSON value.
pub fn doc_to_value(doc: Document, span: Span) -> (v: Value)
    ensures
        v@ == (ValueView::Record { val: record_of(doc@, span), span }),
    decreases doc, 1nat,
{
    let ghost all = doc@;
    let fields = doc.into_entries();
    let ghost held = fields@;
    let mut rec = Record::new();
    for field in it: fields.into_iter()
        invariant
            it.seq() == held,
            forall|i: int| 0 <= i < held.len() ==> decreases_to!(doc => (#[trigger] held[i]).1),
            held.len() == all.len(),
            forall|i: int|
                0 <= i < held.len() ==> (#[trigger] held[i]).0@ == all[i].0 && held[i].1@
                    == all[i].1,
            rec@.len() == it.index(),
            forall|i: int|
                0 <= i < rec@.len() ==> #[trigger] rec@[i] == (
                    all[i].0,
                    value_of(all[i].1, span),
                ),
    {
        let (key, b) = field;
        let v = bson_to_value(b, span);
        rec.push(key, v);
    }
    assert(rec@ =~= record_of(all, span));
    Value::Record { val: rec, span }
}

} // verus!
