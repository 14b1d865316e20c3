//! Object identifiers: twelve bytes, written as twenty-four hex digits.

use vstd::prelude::*;

verus! {

/// What `bson::oid::ObjectId::parse_str` reports of a text that is no
/// object identifier: the message of its error.
pub uninterp spec fn parse_error_message(text: Seq<char>) -> Seq<char>;

/// Whether `c` is one of `0`-`9`, `a`-`f`, `A`-`F`.
pub open spec fn is_hex_digit(c: char) -> bool {
    ('0' <= c <= '9') || ('a' <= c <= 'f') || ('A' <= c <= 'F')
}

/// The number that a hex digit stands for.
pub open spec fn hex_value(c: char) -> int {
    if '0' <= c <= '9' {
        c as int - '0' as int
    } else if 'a' <= c <= 'f' {
        c as int - 'a' as int + 10
    } else {
        c as int - 'A' as int + 10
    }
}

/// The lower-case hex digit for a number below sixteen.
pub open spec fn hex_digit(n: int) -> char {
    if n < 10 {
        ('0' as int + n) as char
    } else {
        ('a' as int + n - 10) as char
    }
}

/// Whether `text` writes an object identifier: twenty-four hex digits.
pub open spec fn is_hex_id(text: Seq<char>) -> bool {
    &&& text.len() == 24
    &&& forall|i: int| 0 <= i < 24 ==> is_hex_digit(#[trigger] text[i])
}

/// The twelve bytes that twenty-four hex digits write, two digits a byte,
/// the high one first.
pub open spec fn hex_bytes(text: Seq<char>) -> Seq<u8> {
    Seq::new(12, |i: int| (16 * hex_value(text[2 * i]) + hex_value(text[2 * i + 1])) as u8)
}

/// The lower-case hex digits that write `bytes`, two digits a byte, the
/// high one first.
pub open spec fn hex_text(bytes: Seq<u8>) -> Seq<char> {
    Seq::new(
        2 * bytes.len(),
        |i: int|
            if i % 2 == 0 {
                hex_digit(bytes[i / 2] as int / 16)
            } else {
                hex_digit(bytes[i / 2] as int % 16)
            },
    )
}

/// Reads an object identifier with `bson::oid::ObjectId::parse_str`.
/// Trusted: it accepts exactly the texts of twenty-four hex digits, in
/// either case, and gives the bytes that they write; of any other text it
/// gives its error's message.
#[verifier::external_body]
pub(crate) fn parse(text: &str) -> (r: Result<[u8; 12], String>)
    ensures
        match r {
            Ok(id) => is_hex_id(text@) && id@ == hex_bytes(text@),
            Err(message) => !is_hex_id(text@) && message@ == parse_error_message(text@),
        },
{
    match bson::oid::ObjectId::parse_str(text) {
        Ok(id) => Ok(id.bytes()),
        Err(e) => Err(e.to_string()),
    }
}

/// Writes an object identifier as `bson::oid::ObjectId` displays it.
/// Trusted: the text is the lower-case hex digits of the twelve bytes.
#[verifier::external_body]
pub(crate) fn to_hex(id: &[u8; 12]) -> (r: String)
    ensures
        r@ == hex_text(id@),
{
    bson::oid::ObjectId::from_bytes(*id).to_string()
}

/// The hex digits of twelve bytes write those bytes.
pub proof fn lemma_hex_round_trip(bytes: Seq<u8>)
    requires
        bytes.len() == 12,
    ensures
        is_hex_id(hex_text(bytes)),
        hex_bytes(hex_text(bytes)) == bytes,
{
    let text = hex_text(bytes);
    assert forall|i: int| 0 <= i < 24 implies is_hex_digit(#[trigger] text[i]) by {
        let b = bytes[i / 2] as int;
        lemma_hex_digit(b / 16);
        lemma_hex_digit(b % 16);
    }
    assert forall|i: int| 0 <= i < 12 implies hex_bytes(text)[i] == bytes[i] by {
        let b = bytes[i] as int;
        lemma_hex_digit(b / 16);
        lemma_hex_digit(b % 16);
    }
}

/// A number below sixteen is the value of its hex digit.
pub proof fn lemma_hex_digit(n: int)
    requires
        0 <= n < 16,
    ensures
        is_hex_digit(hex_digit(n)),
        hex_value(hex_digit(n)) == n,
{
}

} // verus!
