//! BSON values and documents, as far as a conversion reads them.

use vstd::prelude::*;

verus! {

/// The subtype of binary data that carries no further meaning.
pub const BINARY_GENERIC: u8 = 0;

/// A BSON value. A double is held by the bits of its IEEE 754 form; a
/// variant that the shell has no counterpart for keeps only its text.
#[derive(Debug, PartialEq, Eq)]
pub enum Bson {
    Null,
    Int32(i32),
    Int64(i64),
    Double { bits: u64 },
    Boolean(bool),
    String(String),
    Binary { subtype: u8, bytes: Vec<u8> },
    DateTime { millis: i64 },
    ObjectId([u8; 12]),
    Document(Document),
    Array(Vec<Bson>),
    Other { text: String },
}

/// A BSON document: fields in the order of their first insertion, no key
/// twice.
#[derive(Debug, PartialEq, Eq)]
pub struct Document {
    entries: Vec<(String, Bson)>,
}

/// What a [`Bson`] holds, as mathematics sees it.
pub ghost enum BsonView {
    Null,
    Int32(i32),
    Int64(i64),
    Double { bits: u64 },
    Boolean(bool),
    String(Seq<char>),
    Binary { subtype: u8, bytes: Seq<u8> },
    DateTime { millis: int },
    ObjectId(Seq<u8>),
    Document(Seq<(Seq<char>, BsonView)>),
    Array(Seq<BsonView>),
    Other { text: Seq<char> },
}

/// What `b` holds.
pub open spec fn bson_view(b: Bson) -> BsonView
    decreases b,
{
    match b {
        Bson::Null => BsonView::Null,
        Bson::Int32(i) => BsonView::Int32(i),
        Bson::Int64(i) => BsonView::Int64(i),
        Bson::Double { bits } => BsonView::Double { bits },
        Bson::Boolean(v) => BsonView::Boolean(v),
        Bson::String(s) => BsonView::String(s@),
        Bson::Binary { subtype, bytes } => BsonView::Binary { subtype, bytes: bytes@ },
        Bson::DateTime { millis } => BsonView::DateTime { millis: millis as int },
        Bson::ObjectId(id) => BsonView::ObjectId(id@),
        Bson::Document(d) => BsonView::Document(document_view(d)),
        Bson::Array(items) => BsonView::Array(
            Seq::new(
                items@.len(),
                |i: int|
                    if 0 <= i < items@.len() {
                        bson_view(items@[i])
                    } else {
                        BsonView::Null
                    },
            ),
        ),
        Bson::Other { text } => BsonView::Other { text: text@ },
    }
}

/// The fields of `d`, in order.
pub closed spec fn document_view(d: Document) -> Seq<(Seq<char>, BsonView)>
    decreases d,
{
    Seq::new(
        d.entries@.len(),
        |i: int|
            if 0 <= i < d.entries@.len() {
                (d.entries@[i].0@, bson_view(d.entries@[i].1))
            } else {
                (Seq::empty(), BsonView::Null)
            },
    )
}

impl View for Bson {
    type V = BsonView;

    open spec fn view(&self) -> BsonView {
        bson_view(*self)
    }
}

impl View for Document {
    type V = Seq<(Seq<char>, BsonView)>;

    open spec fn view(&self) -> Seq<(Seq<char>, BsonView)> {
        document_view(*self)
    }
}

/// Whether no key stands twice among `entries`.
pub open spec fn distinct_keys<T>(entries: Seq<(Seq<char>, T)>) -> bool {
    forall|i: int, j: int|
        0 <= i < j < entries.len() ==> (#[trigger] entries[i]).0 != (#[trigger] entries[j]).0
}

/// The place of the first field named `key`, or the length of `entries`
/// where there is none.
pub open spec fn key_index<T>(entries: Seq<(Seq<char>, T)>, key: Seq<char>) -> int
    decreases entries.len(),
{
    if entries.len() == 0 {
        0
    } else if entries[0].0 == key {
        0
    } else {
        1 + key_index(entries.skip(1), key)
    }
}

/// `entries` after `key` has been set to `val`: the first field of that
/// name gets the new value and keeps its place, or, where there is none, a
/// new field comes last.
pub open spec fn put<T>(entries: Seq<(Seq<char>, T)>, key: Seq<char>, val: T) -> Seq<
    (Seq<char>, T),
> {
    let at = key_index(entries, key);
    if at < entries.len() {
        entries.update(at, (key, val))
    } else {
        entries.push((key, val))
    }
}

/// `key_index` finds the first field of the name, and says so when there
/// is none.
pub proof fn lemma_key_index<T>(entries: Seq<(Seq<char>, T)>, key: Seq<char>)
    ensures
        0 <= key_index(entries, key) <= entries.len(),
        key_index(entries, key) < entries.len() ==> entries[key_index(entries, key)].0 == key,
        forall|i: int| 0 <= i < key_index(entries, key) ==> (#[trigger] entries[i]).0 != key,
    decreases entries.len(),
{
    if entries.len() > 0 && entries[0].0 != key {
        let rest = entries.skip(1);
        lemma_key_index(rest, key);
        assert forall|i: int| 0 <= i < key_index(entries, key) implies (#[trigger] entries[i]).0
            != key by {
            if i > 0 {
                assert(entries[i] == rest[i - 1]);
            }
        }
    }
}

/// Setting a key keeps the keys distinct.
pub proof fn lemma_put_distinct<T>(entries: Seq<(Seq<char>, T)>, key: Seq<char>, val: T)
    requires
        distinct_keys(entries),
    ensures
        distinct_keys(put(entries, key, val)),
{
    lemma_key_index(entries, key);
    let after = put(entries, key, val);
    assert forall|i: int, j: int| 0 <= i < j < after.len() implies (#[trigger] after[i]).0 != (
    #[trigger] after[j]).0 by {}
}

impl Document {
    /// What every document built by `new` and `insert` satisfies: no key
    /// stands twice.
    pub open spec fn wf(&self) -> bool {
        distinct_keys(self@)
    }

    /// The document without fields.
    pub fn new() -> (d: Document)
        ensures
            d@ == Seq::<(Seq<char>, BsonView)>::empty(),
            d.wf(),
    {
        Document { entries: Vec::new() }
    }

    /// The number of fields.
    pub fn len(&self) -> (n: usize)
        ensures
            n == self@.len(),
    {
        self.entries.len()
    }

    /// Sets `key` to `val`: an existing field keeps its place and gets
    /// the new value, a new key comes last.
    pub fn insert(&mut self, key: String, val: Bson)
        ensures
            final(self)@ == put(old(self)@, key@, val@),
            old(self).wf() ==> final(self).wf(),
    {
        proof {
            lemma_key_index(self@, key@);
            if self.wf() {
                lemma_put_distinct(self@, key@, val@);
            }
        }
        let n = self.entries.len();
        let mut i: usize = 0;
        while i < n && self.entries[i].0 != key
            invariant
                n == self.entries@.len(),
                0 <= i <= n,
                *self == *old(self),
                forall|k: int| 0 <= k < i ==> (#[trigger] self@[k]).0 != key@,
            decreases n - i,
        {
            i += 1;
        }
        proof {
            Self::lemma_first(self@, key@, i as int);
        }
        if i < n {
            self.entries.set(i, (key, val));
        } else {
            self.entries.push((key, val));
        }
        assert(self@ =~= put(old(self)@, key@, val@));
    }

    /// The fields, in order.
    pub fn entries(&self) -> (r: &Vec<(String, Bson)>)
        ensures
            r@.len() == self@.len(),
            forall|i: int|
                0 <= i < r@.len() ==> (#[trigger] r@[i]).0@ == self@[i].0 && r@[i].1@
                    == self@[i].1,
    {
        &self.entries
    }

    /// Gives the fields up, in order.
    pub fn into_entries(self) -> (r: Vec<(String, Bson)>)
        ensures
            decreases_to!(self => r),
            r@.len() == self@.len(),
            forall|i: int|
                0 <= i < r@.len() ==> (#[trigger] r@[i]).0@ == self@[i].0 && r@[i].1@
                    == self@[i].1,
    {
        self.entries
    }

    proof fn lemma_first(entries: Seq<(Seq<char>, BsonView)>, key: Seq<char>, at: int)
        requires
            0 <= at <= entries.len(),
            forall|k: int| 0 <= k < at ==> (#[trigger] entries[k]).0 != key,
            at < entries.len() ==> entries[at].0 == key,
        ensures
            key_index(entries, key) == at,
    {
        lemma_key_index(entries, key);
    }
}

} // verus!
