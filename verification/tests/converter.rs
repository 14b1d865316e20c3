use nu_plugin_mongo::cmds::{bson_to_value, doc_to_value, to_bson, value_to_doc, ConversionError};
use nu_plugin_mongo::{Bson, Document, Record, Span, Timestamp, Value};

fn at() -> Span {
    Span::new(3, 9)
}

fn elsewhere() -> Span {
    Span::new(40, 41)
}

fn text(s: &str) -> Value {
    Value::String { val: s.to_string(), span: at() }
}

fn whole(n: i64) -> Value {
    Value::Int { val: n, span: at() }
}

fn record(fields: Vec<(&str, Value)>) -> Record {
    let mut rec = Record::new();
    for (k, v) in fields {
        rec.push(k.to_string(), v);
    }
    rec
}

fn document(fields: Vec<(&str, Bson)>) -> Document {
    let mut doc = Document::new();
    for (k, v) in fields {
        doc.insert(k.to_string(), v);
    }
    doc
}

const ID: [u8; 12] = [0x50, 0x7f, 0x1f, 0x77, 0xbc, 0xf8, 0x6c, 0xd7, 0x99, 0x43, 0x90, 0x11];

#[test]
fn object_id_text_becomes_an_object_id() {
    let got = to_bson(text("ObjectId507f1f77bcf86cd799439011"));
    assert_eq!(got, Ok(Bson::ObjectId(ID)));
}

#[test]
fn object_id_digits_may_be_upper_case() {
    let got = to_bson(text("ObjectId507F1F77BCF86CD799439011"));
    assert_eq!(got, Ok(Bson::ObjectId(ID)));
}

#[test]
fn short_object_id_is_refused() {
    let got = to_bson(text("ObjectId123"));
    match got {
        Err(ConversionError::InvalidObjectId { text, error, span }) => {
            assert_eq!(text, "ObjectId123");
            assert_eq!(span, at());
            assert_eq!(
                error,
                "provided hex string representation must be exactly 12 bytes, instead got: \"123\", length 3"
            );
        }
        other => panic!("unexpected: {:?}", other),
    }
}

#[test]
fn object_id_with_a_wrong_digit_is_refused() {
    let got = to_bson(text("ObjectId507f1f77bcf86cd79943901g"));
    match got {
        Err(ConversionError::InvalidObjectId { text, error, span }) => {
            assert_eq!(text, "ObjectId507f1f77bcf86cd79943901g");
            assert_eq!(span, at());
            assert_eq!(
                error,
                "invalid character 'g' was found at index 23 in the provided hex string: \"507f1f77bcf86cd79943901g\""
            );
        }
        other => panic!("unexpected: {:?}", other),
    }
}

#[test]
fn letters_beyond_ascii_are_no_digits() {
    let twenty_four_bytes = "ObjectId507f1f77bcf86cd7994390\u{e9}";
    assert!(matches!(
        to_bson(text(twenty_four_bytes)),
        Err(ConversionError::InvalidObjectId { .. })
    ));
    let twenty_four_letters = "ObjectId507f1f77bcf86cd79943901\u{e9}";
    assert!(matches!(
        to_bson(text(twenty_four_letters)),
        Err(ConversionError::InvalidObjectId { .. })
    ));
    assert_eq!(to_bson(text("\u{e9}ObjectId")), Ok(Bson::String("\u{e9}ObjectId".to_string())));
}

#[test]
fn bare_prefix_is_refused() {
    let got = to_bson(text("ObjectId"));
    assert!(matches!(got, Err(ConversionError::InvalidObjectId { .. })));
}

#[test]
fn prefix_is_taken_off_once() {
    let got = to_bson(text("ObjectIdObjectId507f1f77bcf86cd799439011"));
    match got {
        Err(ConversionError::InvalidObjectId { text, .. }) => {
            assert_eq!(text, "ObjectIdObjectId507f1f77bcf86cd799439011");
        }
        other => panic!("unexpected: {:?}", other),
    }
}

#[test]
fn prefix_must_stand_at_the_front() {
    let got = to_bson(text(" ObjectId507f1f77bcf86cd799439011"));
    assert_eq!(got, Ok(Bson::String(" ObjectId507f1f77bcf86cd799439011".to_string())));
    let got = to_bson(text("objectid507f1f77bcf86cd799439011"));
    assert_eq!(got, Ok(Bson::String("objectid507f1f77bcf86cd799439011".to_string())));
}

#[test]
fn glob_is_read_like_a_text() {
    let got = to_bson(Value::Glob { val: "*.rs".to_string(), no_expand: false, span: at() });
    assert_eq!(got, Ok(Bson::String("*.rs".to_string())));
    let got = to_bson(Value::Glob {
        val: "ObjectId507f1f77bcf86cd799439011".to_string(),
        no_expand: true,
        span: at(),
    });
    assert_eq!(got, Ok(Bson::ObjectId(ID)));
}

#[test]
fn object_id_comes_back_without_its_prefix() {
    let rec = record(vec![("_id", text("ObjectId507f1f77bcf86cd799439011"))]);
    let doc = value_to_doc(rec).unwrap();
    let back = doc_to_value(doc, at());
    let want = record(vec![("_id", text("507f1f77bcf86cd799439011"))]);
    assert_eq!(back, Value::Record { val: want, span: at() });
}

#[test]
fn object_id_is_shown_in_lower_case() {
    let got = bson_to_value(Bson::ObjectId([0xAB, 0xCD, 0xEF, 0, 1, 2, 3, 4, 5, 6, 7, 0xFF]), at());
    assert_eq!(got, text("abcdef0001020304050607ff"));
}

#[test]
fn scalars_go_to_bson() {
    assert_eq!(to_bson(whole(-7)), Ok(Bson::Int64(-7)));
    assert_eq!(to_bson(Value::Bool { val: true, span: at() }), Ok(Bson::Boolean(true)));
    let bits = 1.5f64.to_bits();
    assert_eq!(to_bson(Value::Float { bits, span: at() }), Ok(Bson::Double { bits }));
    assert_eq!(to_bson(text("plain")), Ok(Bson::String("plain".to_string())));
    assert_eq!(
        to_bson(Value::Binary { val: vec![1, 2, 3], span: at() }),
        Ok(Bson::Binary { subtype: 0, bytes: vec![1, 2, 3] })
    );
}

#[test]
fn nothing_has_no_bson_form() {
    let got = to_bson(Value::Nothing { span: elsewhere() });
    assert_eq!(
        got,
        Err(ConversionError::UnsupportedType { kind: "nothing".to_string(), span: elsewhere() })
    );
}

#[test]
fn other_kinds_are_named_in_the_error() {
    let got = to_bson(Value::Other { kind: "closure".to_string(), span: elsewhere() });
    assert_eq!(
        got,
        Err(ConversionError::UnsupportedType { kind: "closure".to_string(), span: elsewhere() })
    );
    let rec = record(vec![("f", Value::Other { kind: "range".to_string(), span: elsewhere() })]);
    assert_eq!(
        value_to_doc(rec),
        Err(ConversionError::UnsupportedType { kind: "range".to_string(), span: elsewhere() })
    );
}

#[test]
fn conversion_error_texts() {
    let e = ConversionError::UnsupportedType { kind: "duration".to_string(), span: at() };
    assert_eq!(e.message(), "can't convert to mongo doc");
    assert_eq!(e.label(), ("invalid value type: duration".to_string(), at()));
    let e = ConversionError::InvalidObjectId {
        text: "ObjectIdx".to_string(),
        error: "bad".to_string(),
        span: elsewhere(),
    };
    assert_eq!(e.message(), "invalid ObjectId");
    assert_eq!(e.label(), ("bad".to_string(), elsewhere()));
}

#[test]
fn first_error_in_a_list_wins() {
    let list = Value::List {
        vals: vec![
            whole(1),
            Value::Other { kind: "first".to_string(), span: elsewhere() },
            text("ObjectIdzz"),
            Value::Other { kind: "second".to_string(), span: at() },
        ],
        span: at(),
    };
    assert_eq!(
        to_bson(list),
        Err(ConversionError::UnsupportedType { kind: "first".to_string(), span: elsewhere() })
    );
}

#[test]
fn first_error_in_a_record_wins() {
    let rec = record(vec![
        ("a", whole(1)),
        ("b", Value::List { vals: vec![text("ObjectId12")], span: at() }),
        ("c", Value::Nothing { span: at() }),
    ]);
    match value_to_doc(rec) {
        Err(ConversionError::InvalidObjectId { text, .. }) => assert_eq!(text, "ObjectId12"),
        other => panic!("unexpected: {:?}", other),
    }
}

#[test]
fn empty_record_and_empty_list() {
    let doc = value_to_doc(Record::new()).unwrap();
    assert_eq!(doc.len(), 0);
    assert_eq!(doc, Document::new());
    assert_eq!(to_bson(Value::List { vals: vec![], span: at() }), Ok(Bson::Array(vec![])));
    assert_eq!(
        doc_to_value(Document::new(), at()),
        Value::Record { val: Record::new(), span: at() }
    );
}

#[test]
fn nested_record_goes_to_a_nested_document() {
    let rec = record(vec![
        ("name", text("John")),
        (
            "address",
            Value::Record {
                val: record(vec![("zip", whole(12345)), ("tags", Value::List { vals: vec![text("a"), whole(2)], span: at() })]),
                span: at(),
            },
        ),
    ]);
    let want = document(vec![
        ("name", Bson::String("John".to_string())),
        (
            "address",
            Bson::Document(document(vec![
                ("zip", Bson::Int64(12345)),
                ("tags", Bson::Array(vec![Bson::String("a".to_string()), Bson::Int64(2)])),
            ])),
        ),
    ]);
    assert_eq!(value_to_doc(rec), Ok(want));
}

#[test]
fn repeated_key_overwrites_at_its_first_place() {
    let rec = record(vec![("a", whole(1)), ("b", whole(2)), ("a", whole(3))]);
    let doc = value_to_doc(rec).unwrap();
    let keys: Vec<&str> = doc.entries().iter().map(|e| e.0.as_str()).collect();
    assert_eq!(keys, vec!["a", "b"]);
    assert_eq!(doc.entries()[0].1, Bson::Int64(3));
    assert_eq!(doc.entries()[1].1, Bson::Int64(2));
}

#[test]
fn document_insert_keeps_the_order_of_first_insertion() {
    let mut doc = Document::new();
    doc.insert("x".to_string(), Bson::Null);
    doc.insert("y".to_string(), Bson::Boolean(false));
    doc.insert("x".to_string(), Bson::Int32(9));
    assert_eq!(doc.len(), 2);
    let entries = doc.into_entries();
    assert_eq!(entries[0], ("x".to_string(), Bson::Int32(9)));
    assert_eq!(entries[1], ("y".to_string(), Bson::Boolean(false)));
}

#[test]
fn every_bson_value_has_a_value() {
    let bits = (-0.25f64).to_bits();
    let doc = document(vec![
        ("null", Bson::Null),
        ("double", Bson::Double { bits }),
        ("string", Bson::String("s".to_string())),
        ("bool", Bson::Boolean(false)),
        ("i32", Bson::Int32(-2_000_000_000)),
        ("i64", Bson::Int64(9_000_000_000)),
        ("oid", Bson::ObjectId(ID)),
        ("doc", Bson::Document(document(vec![("inner", Bson::Int32(1))]))),
        ("bin", Bson::Binary { subtype: 0x80, bytes: vec![9, 8] }),
        ("arr", Bson::Array(vec![Bson::Int32(1), Bson::Array(vec![Bson::Null])])),
        ("other", Bson::Other { text: "/ab+c/i".to_string() }),
    ]);
    let s = elsewhere();
    let mut want = Record::new();
    want.push("null".to_string(), Value::Nothing { span: s });
    want.push("double".to_string(), Value::Float { bits, span: s });
    want.push("string".to_string(), Value::String { val: "s".to_string(), span: s });
    want.push("bool".to_string(), Value::Bool { val: false, span: s });
    want.push("i32".to_string(), Value::Int { val: -2_000_000_000, span: s });
    want.push("i64".to_string(), Value::Int { val: 9_000_000_000, span: s });
    want.push(
        "oid".to_string(),
        Value::String { val: "507f1f77bcf86cd799439011".to_string(), span: s },
    );
    let mut inner = Record::new();
    inner.push("inner".to_string(), Value::Int { val: 1, span: s });
    want.push("doc".to_string(), Value::Record { val: inner, span: s });
    want.push("bin".to_string(), Value::Binary { val: vec![9, 8], span: s });
    want.push(
        "arr".to_string(),
        Value::List {
            vals: vec![
                Value::Int { val: 1, span: s },
                Value::List { vals: vec![Value::Nothing { span: s }], span: s },
            ],
            span: s,
        },
    );
    want.push("other".to_string(), Value::String { val: "/ab+c/i".to_string(), span: s });
    assert_eq!(doc_to_value(doc, s), Value::Record { val: want, span: s });
}

#[test]
fn plain_values_come_back_as_they_were() {
    let make = || {
        record(vec![
            ("n", whole(i64::MIN)),
            ("f", Value::Float { bits: f64::NAN.to_bits(), span: at() }),
            ("b", Value::Bool { val: true, span: at() }),
            ("s", text("Object Id is not a prefix")),
            ("bin", Value::Binary { val: vec![0, 255], span: at() }),
            (
                "list",
                Value::List {
                    vals: vec![
                        whole(1),
                        Value::Record { val: record(vec![("deep", text(""))]), span: at() },
                        Value::List { vals: vec![], span: at() },
                    ],
                    span: at(),
                },
            ),
        ])
    };
    let doc = value_to_doc(make()).unwrap();
    let back = doc_to_value(doc, at());
    assert_eq!(back, Value::Record { val: make(), span: at() });
}

#[test]
fn timestamp_keeps_its_milliseconds() {
    let t = Timestamp::new(1_700_000_000, 123_456_789).unwrap();
    let got = to_bson(Value::Date { val: t, span: at() });
    assert_eq!(got, Ok(Bson::DateTime { millis: 1_700_000_000_123 }));
    let back = bson_to_value(got.unwrap(), at());
    assert_eq!(
        back,
        Value::Date { val: Timestamp::new(1_700_000_000, 123_000_000).unwrap(), span: at() }
    );
}

#[test]
fn timestamp_before_the_epoch() {
    let t = Timestamp::new(-2, 999_999_999).unwrap();
    assert_eq!(t.millis(), -1001);
    let back = Timestamp::from_millis(-1001);
    assert_eq!((back.seconds(), back.subsec_nanos()), (-2, 999_000_000));
    assert_eq!(back.millis(), -1001);
}

#[test]
fn timestamp_in_a_leap_second() {
    let t = Timestamp::new(1_483_228_799, 1_500_000_000).unwrap();
    assert_eq!(t.millis(), 1_483_228_800_500);
    let back = Timestamp::from_millis(t.millis());
    assert_eq!((back.seconds(), back.subsec_nanos()), (1_483_228_800, 500_000_000));
}

#[test]
fn timestamps_that_do_not_exist() {
    assert_eq!(Timestamp::new(0, 2_000_000_000), None);
    assert_eq!(Timestamp::new(0, 1_000_000_000), None);
    assert_eq!(Timestamp::new(58, 1_000_000_000), None);
    assert!(Timestamp::new(59, 1_999_999_999).is_some());
    assert_eq!(Timestamp::new(i64::MAX, 0), None);
    assert_eq!(Timestamp::new(i64::MIN, 0), None);
    let t = Timestamp::new(12, 34).unwrap();
    assert_eq!((t.seconds(), t.subsec_nanos()), (12, 34));
}

#[test]
fn dates_beyond_the_calendar_stop_at_its_ends() {
    let latest = chrono::DateTime::<chrono::Utc>::MAX_UTC;
    let earliest = chrono::DateTime::<chrono::Utc>::MIN_UTC;
    let hi = Timestamp::from_millis(i64::MAX);
    assert_eq!(
        (hi.seconds(), hi.subsec_nanos()),
        (latest.timestamp(), latest.timestamp_subsec_nanos())
    );
    assert_eq!(Timestamp::new(hi.seconds(), hi.subsec_nanos()), Some(hi));
    assert_eq!(Timestamp::new(hi.seconds() + 1, 0), None);
    let lo = Timestamp::from_millis(i64::MIN);
    assert_eq!(
        (lo.seconds(), lo.subsec_nanos()),
        (earliest.timestamp(), earliest.timestamp_subsec_nanos())
    );
    assert_eq!(Timestamp::new(lo.seconds(), lo.subsec_nanos()), Some(lo));
    assert_eq!(Timestamp::new(lo.seconds() - 1, 0), None);
    let got = bson_to_value(Bson::DateTime { millis: i64::MAX }, at());
    assert_eq!(got, Value::Date { val: hi, span: at() });
}

#[test]
fn library_agrees_with_bson_on_object_ids() {
    let oid = bson::oid::ObjectId::parse_str("0123456789abcdefABCDEF00").unwrap();
    assert_eq!(to_bson(text("ObjectId0123456789abcdefABCDEF00")), Ok(Bson::ObjectId(oid.bytes())));
    assert_eq!(bson_to_value(Bson::ObjectId(oid.bytes()), at()), text(&oid.to_hex()));
}
