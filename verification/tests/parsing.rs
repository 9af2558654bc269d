use recap_schema::compile::{compile_schema, Artifact, SchemaError};
use recap_schema::record::RecordParser;
use recap_schema::schema::{
    AttrList, Field, FieldType, MetaItem, MetaValue, RecordFields, Schema, SchemaKind, Shape,
    Variant,
};
use recap_schema::tagged::{UnionParser, UnionPayload};
use recap_schema::value::{FieldValue, ParseError};

fn recap_attr(pattern: &str) -> AttrList {
    AttrList {
        name: "recap".to_string(),
        items: vec![MetaItem::NameValue {
            key: "regex".to_string(),
            value: MetaValue::Str(pattern.to_string()),
        }],
    }
}

fn field(name: &str, ty: FieldType) -> Field {
    Field {
        name: name.to_string(),
        ty,
    }
}

fn room_schema() -> Schema {
    Schema {
        name: "TestCommand".to_string(),
        attrs: vec![recap_attr(r"^(?P<room_name>\d+)\s(?P<room_capacity>\d+)")],
        kind: SchemaKind::Record(RecordFields::Named(vec![
            field("room_name", FieldType::Text),
            field("room_capacity", FieldType::Integer),
        ])),
        borrows: false,
    }
}

fn room_parser() -> RecordParser {
    match compile_schema(room_schema()) {
        Ok(Artifact::Record(p)) => p,
        _ => panic!("room schema should compile to a record parser"),
    }
}

fn command_variants() -> Vec<Variant> {
    vec![
        Variant {
            name: "Join".to_string(),
            attrs: vec![recap_attr(r"^/join\s(?P<user_id>\d+)")],
            shape: Shape::SingleValue(FieldType::Integer),
        },
        Variant {
            name: "SendMessage".to_string(),
            attrs: vec![recap_attr(r"^/send\s(?P<room_id>\d+)\s(?P<message>.+)")],
            shape: Shape::NamedFields(vec![
                field("room_id", FieldType::Integer),
                field("message", FieldType::Text),
            ]),
        },
        Variant {
            name: "CreateRoom".to_string(),
            attrs: vec![recap_attr(r"^/create\s(?P<room_name>.+)")],
            shape: Shape::NamedFields(vec![field("room_name", FieldType::Text)]),
        },
        Variant {
            name: "Ping".to_string(),
            attrs: vec![recap_attr(r"^/ping")],
            shape: Shape::Unit,
        },
    ]
}

fn command_schema() -> Schema {
    Schema {
        name: "Command".to_string(),
        attrs: vec![],
        kind: SchemaKind::Union(command_variants()),
        borrows: false,
    }
}

fn command_parser() -> UnionParser {
    match compile_schema(command_schema()) {
        Ok(Artifact::Union(p)) => p,
        _ => panic!("command schema should compile to a union parser"),
    }
}

#[test]
fn record_parses_matching_input() {
    let parser = room_parser();
    let values = parser.try_from("101 42").expect("input matches the pattern");
    assert_eq!(values.len(), 2);
    assert!(matches!(&values[0], FieldValue::Text(s) if s == "101"));
    assert!(matches!(&values[1], FieldValue::Integer(42)));
}

#[test]
fn record_parses_from_owned_string() {
    let parser = room_parser();
    let values = parser
        .from_owned_string("7 900".to_string())
        .expect("input matches the pattern");
    assert!(matches!(&values[0], FieldValue::Text(s) if s == "7"));
    assert!(matches!(&values[1], FieldValue::Integer(900)));
}

#[test]
fn record_rejects_non_matching_input() {
    let parser = room_parser();
    assert!(matches!(parser.try_from("rooms"), Err(ParseError::NoMatch)));
    assert!(matches!(parser.try_from(""), Err(ParseError::NoMatch)));
}

#[test]
fn record_reports_failing_field_conversion() {
    let schema = Schema {
        name: "Pair".to_string(),
        attrs: vec![recap_attr(r"^(?P<left>\w+)\s(?P<right>\w+)$")],
        kind: SchemaKind::Record(RecordFields::Named(vec![
            field("left", FieldType::Text),
            field("right", FieldType::Integer),
        ])),
        borrows: false,
    };
    let parser = match compile_schema(schema) {
        Ok(Artifact::Record(p)) => p,
        _ => panic!("pair schema should compile"),
    };
    match parser.try_from("abc def") {
        Err(ParseError::FieldConversion(name)) => assert_eq!(name, "right"),
        other => panic!("expected a conversion error, got {:?}", other),
    }
}

#[test]
fn record_reports_missing_capture() {
    // Two named groups in alternation: the counts align, yet only one group
    // participates in any given match, so the other field's capture is absent.
    let schema = Schema {
        name: "Either".to_string(),
        attrs: vec![recap_attr(r"^(?:(?P<a>[0-9]+)|(?P<b>[a-z]+))$")],
        kind: SchemaKind::Record(RecordFields::Named(vec![
            field("a", FieldType::Text),
            field("b", FieldType::Text),
        ])),
        borrows: false,
    };
    let parser = match compile_schema(schema) {
        Ok(Artifact::Record(p)) => p,
        _ => panic!("alternation schema should compile"),
    };
    match parser.try_from("123") {
        Err(ParseError::MissingCapture(name)) => assert_eq!(name, "b"),
        other => panic!("expected a missing-capture error, got {:?}", other),
    }
}

#[test]
fn record_is_match_agrees_with_pattern() {
    let parser = room_parser();
    assert!(parser.is_match("101 42"));
    assert!(parser.is_match("0 0"));
    assert!(!parser.is_match("no digits"));
    assert!(!parser.is_match(""));
}

#[test]
fn union_picks_named_fields_variant() {
    let parser = command_parser();
    let value = parser
        .try_from("/send 5458 Hello, World!")
        .expect("send input matches");
    assert_eq!(value.variant, 1);
    match value.payload {
        UnionPayload::NamedFields(values) => {
            assert!(matches!(&values[0], FieldValue::Integer(5458)));
            assert!(matches!(&values[1], FieldValue::Text(s) if s == "Hello, World!"));
        }
        other => panic!("expected named fields, got {:?}", other),
    }
}

#[test]
fn union_picks_unit_variant() {
    let parser = command_parser();
    let value = parser.try_from("/ping").expect("ping input matches");
    assert_eq!(value.variant, 3);
    assert!(matches!(value.payload, UnionPayload::Unit));
}

#[test]
fn union_variant_names_follow_declaration_order() {
    let parser = command_parser();
    assert_eq!(parser.variant_name(0), Some(&"Join".to_string()));
    assert_eq!(parser.variant_name(3), Some(&"Ping".to_string()));
    assert_eq!(parser.variant_name(4), None);
    let parsed = parser.try_from("/send 1 hi").expect("send input matches");
    assert_eq!(parser.variant_name(parsed.variant), Some(&"SendMessage".to_string()));
}

#[test]
fn union_rejects_unknown_input() {
    let parser = command_parser();
    assert!(matches!(
        parser.try_from("/unknown"),
        Err(ParseError::NoMatch)
    ));
}

#[test]
fn union_picks_single_value_variant() {
    let parser = command_parser();
    let value = parser.try_from("/join 17").expect("join input matches");
    assert_eq!(value.variant, 0);
    assert!(matches!(value.payload, UnionPayload::SingleValue(FieldValue::Integer(17))));
}

#[test]
fn union_first_declared_variant_wins() {
    // Both patterns match the input; the parse must yield the variant
    // declared first, never the catch-all declared after it.
    let schema = Schema {
        name: "Overlap".to_string(),
        attrs: vec![],
        kind: SchemaKind::Union(vec![
            Variant {
                name: "Specific".to_string(),
                attrs: vec![recap_attr(r"^/quit$")],
                shape: Shape::Unit,
            },
            Variant {
                name: "CatchAll".to_string(),
                attrs: vec![recap_attr(r"^/\w+$")],
                shape: Shape::Unit,
            },
        ]),
        borrows: false,
    };
    let parser = match compile_schema(schema) {
        Ok(Artifact::Union(p)) => p,
        _ => panic!("overlap schema should compile"),
    };
    assert_eq!(parser.try_from("/quit").expect("matches both").variant, 0);
    assert_eq!(parser.try_from("/other").expect("matches catch-all").variant, 1);
}

#[test]
fn union_skips_single_value_variant_that_does_not_convert() {
    // The first variant's pattern matches but its capture is not a number:
    // the trial must move on to the later variant, not fail the parse.
    let schema = Schema {
        name: "Fallback".to_string(),
        attrs: vec![],
        kind: SchemaKind::Union(vec![
            Variant {
                name: "Numeric".to_string(),
                attrs: vec![recap_attr(r"^(?P<value>\w+)$")],
                shape: Shape::SingleValue(FieldType::Integer),
            },
            Variant {
                name: "Word".to_string(),
                attrs: vec![recap_attr(r"^(?P<value>\w+)$")],
                shape: Shape::SingleValue(FieldType::Text),
            },
        ]),
        borrows: false,
    };
    let parser = match compile_schema(schema) {
        Ok(Artifact::Union(p)) => p,
        _ => panic!("fallback schema should compile"),
    };
    let numeric = parser.try_from("12345").expect("numeric input matches");
    assert_eq!(numeric.variant, 0);
    assert!(matches!(numeric.payload, UnionPayload::SingleValue(FieldValue::Integer(12345))));
    let word = parser.try_from("hello").expect("word input matches");
    assert_eq!(word.variant, 1);
    assert!(matches!(word.payload, UnionPayload::SingleValue(FieldValue::Text(s)) if s == "hello"));
}

#[test]
fn single_value_reads_positional_group_one() {
    // Validation counts *named* groups, while a single-value variant reads
    // *positional* group 1. Here the one named group is group 2; when only
    // it participates, group 1 is absent and the variant is passed over.
    let schema = Schema {
        name: "Skewed".to_string(),
        attrs: vec![],
        kind: SchemaKind::Union(vec![
            Variant {
                name: "Skewed".to_string(),
                attrs: vec![recap_attr(r"^(?:(x+)|(?P<v>\d+))$")],
                shape: Shape::SingleValue(FieldType::Text),
            },
            Variant {
                name: "Rest".to_string(),
                attrs: vec![recap_attr(r"^\w+$")],
                shape: Shape::Unit,
            },
        ]),
        borrows: false,
    };
    let parser = match compile_schema(schema) {
        Ok(Artifact::Union(p)) => p,
        _ => panic!("skewed schema should compile: it has one named group"),
    };
    // Group 1 participates: its text, not the named group's, is the value.
    let via_group_one = parser.try_from("xxx").expect("matches");
    assert_eq!(via_group_one.variant, 0);
    assert!(matches!(via_group_one.payload, UnionPayload::SingleValue(FieldValue::Text(s)) if s == "xxx"));
    // Only the named group participates: group 1 is absent, so the trial
    // moves on to the next variant.
    let via_named = parser.try_from("123").expect("matches");
    assert_eq!(via_named.variant, 1);
    assert!(matches!(via_named.payload, UnionPayload::Unit));
}

#[test]
fn union_named_fields_conversion_failure_ends_the_parse() {
    // A named-fields variant that matches but does not convert ends the
    // whole parse with the binder's error, even though a later variant
    // would have matched.
    let schema = Schema {
        name: "Strict".to_string(),
        attrs: vec![],
        kind: SchemaKind::Union(vec![
            Variant {
                name: "Count".to_string(),
                attrs: vec![recap_attr(r"^(?P<count>\w+)$")],
                shape: Shape::NamedFields(vec![field("count", FieldType::Integer)]),
            },
            Variant {
                name: "Anything".to_string(),
                attrs: vec![recap_attr(r"^\w+$")],
                shape: Shape::Unit,
            },
        ]),
        borrows: false,
    };
    let parser = match compile_schema(schema) {
        Ok(Artifact::Union(p)) => p,
        _ => panic!("strict schema should compile"),
    };
    match parser.try_from("notanumber") {
        Err(ParseError::FieldConversion(name)) => assert_eq!(name, "count"),
        other => panic!("expected a conversion error, got {:?}", other),
    }
}

#[test]
fn union_is_match_agrees_with_any_pattern() {
    let parser = command_parser();
    assert!(parser.is_match("/ping"));
    assert!(parser.is_match("/send 1 hi"));
    assert!(parser.is_match("/join 4"));
    assert!(!parser.is_match("/unknown"));
    assert!(!parser.is_match(""));

    // The predicate answers membership only: reversing the declaration
    // order leaves it unchanged on every probe.
    let mut reversed = command_variants();
    reversed.reverse();
    let schema = Schema {
        name: "Command".to_string(),
        attrs: vec![],
        kind: SchemaKind::Union(reversed),
        borrows: false,
    };
    let backwards = match compile_schema(schema) {
        Ok(Artifact::Union(p)) => p,
        _ => panic!("reversed schema should compile"),
    };
    for probe in ["/ping", "/send 1 hi", "/join 4", "/unknown", "", "/create x"] {
        assert_eq!(parser.is_match(probe), backwards.is_match(probe));
    }
}

#[test]
fn union_from_owned_string_parses() {
    let parser = command_parser();
    let value = parser
        .from_owned_string("/ping".to_string())
        .expect("ping input matches");
    assert_eq!(value.variant, 3);
}

#[test]
fn rejects_capture_count_mismatch_on_record() {
    let schema = Schema {
        name: "TestCommand".to_string(),
        attrs: vec![recap_attr(r"^(?P<room_name>\d+)$")],
        kind: SchemaKind::Record(RecordFields::Named(vec![
            field("room_name", FieldType::Text),
            field("room_capacity", FieldType::Integer),
        ])),
        borrows: false,
    };
    match compile_schema(schema) {
        Err(SchemaError::CaptureCountMismatch(name, expected, found)) => {
            assert_eq!(name, "TestCommand");
            assert_eq!(expected, 2);
            assert_eq!(found, 1);
        }
        other => panic!("expected a count mismatch, got {:?}", other.err()),
    }
}

#[test]
fn rejects_capture_count_mismatch_on_variant() {
    let schema = Schema {
        name: "Command".to_string(),
        attrs: vec![],
        kind: SchemaKind::Union(vec![
            Variant {
                name: "Ping".to_string(),
                attrs: vec![recap_attr(r"^/ping")],
                shape: Shape::Unit,
            },
            Variant {
                name: "Join".to_string(),
                attrs: vec![recap_attr(r"^/join\s(\d+)")],
                shape: Shape::SingleValue(FieldType::Integer),
            },
        ]),
        borrows: false,
    };
    // The join pattern's one group is unnamed: zero named captures against
    // the single value the shape requires.
    match compile_schema(schema) {
        Err(SchemaError::CaptureCountMismatch(name, expected, found)) => {
            assert_eq!(name, "Command");
            assert_eq!(expected, 1);
            assert_eq!(found, 0);
        }
        other => panic!("expected a count mismatch, got {:?}", other.err()),
    }
}

#[test]
fn rejects_missing_record_pattern() {
    let schema = Schema {
        name: "Bare".to_string(),
        attrs: vec![],
        kind: SchemaKind::Record(RecordFields::Named(vec![field("a", FieldType::Text)])),
        borrows: false,
    };
    assert!(matches!(compile_schema(schema), Err(SchemaError::MissingPattern)));
}

#[test]
fn rejects_missing_variant_pattern() {
    let schema = Schema {
        name: "Command".to_string(),
        attrs: vec![],
        kind: SchemaKind::Union(vec![
            Variant {
                name: "Ping".to_string(),
                attrs: vec![recap_attr(r"^/ping")],
                shape: Shape::Unit,
            },
            Variant {
                name: "Quit".to_string(),
                attrs: vec![],
                shape: Shape::Unit,
            },
        ]),
        borrows: false,
    };
    match compile_schema(schema) {
        Err(SchemaError::MissingVariantPattern(name)) => assert_eq!(name, "Quit"),
        other => panic!("expected a missing variant pattern, got {:?}", other.err()),
    }
}

#[test]
fn rejects_invalid_pattern() {
    let schema = Schema {
        name: "Broken".to_string(),
        attrs: vec![recap_attr(r"foo(bar")],
        kind: SchemaKind::Record(RecordFields::Named(vec![field("a", FieldType::Text)])),
        borrows: false,
    };
    match compile_schema(schema) {
        Err(SchemaError::InvalidPattern(name, detail)) => {
            assert_eq!(name, "Broken");
            assert!(!detail.is_empty());
        }
        other => panic!("expected an invalid pattern error, got {:?}", other.err()),
    }
}

#[test]
fn rejects_record_without_named_fields() {
    let positional = Schema {
        name: "Tuple".to_string(),
        attrs: vec![recap_attr(r"^(?P<a>\d+)$")],
        kind: SchemaKind::Record(RecordFields::Positional(1)),
        borrows: false,
    };
    assert!(matches!(compile_schema(positional), Err(SchemaError::UnsupportedShape)));
    let unit = Schema {
        name: "Marker".to_string(),
        attrs: vec![recap_attr(r"^x$")],
        kind: SchemaKind::Record(RecordFields::Unit),
        borrows: false,
    };
    assert!(matches!(compile_schema(unit), Err(SchemaError::UnsupportedShape)));
}

#[test]
fn unit_variants_are_exempt_from_capture_counts() {
    // A unit variant's pattern may carry any number of named groups: the
    // pattern is only a boolean test.
    let schema = Schema {
        name: "Marker".to_string(),
        attrs: vec![],
        kind: SchemaKind::Union(vec![Variant {
            name: "Tagged".to_string(),
            attrs: vec![recap_attr(r"^(?P<a>\d+)-(?P<b>\d+)$")],
            shape: Shape::Unit,
        }]),
        borrows: false,
    };
    let parser = match compile_schema(schema) {
        Ok(Artifact::Union(p)) => p,
        _ => panic!("unit schema should compile"),
    };
    assert_eq!(parser.try_from("12-34").expect("matches").variant, 0);
}

#[test]
fn empty_union_matches_nothing() {
    let schema = Schema {
        name: "Void".to_string(),
        attrs: vec![],
        kind: SchemaKind::Union(vec![]),
        borrows: false,
    };
    let parser = match compile_schema(schema) {
        Ok(Artifact::Union(p)) => p,
        _ => panic!("an empty union has nothing to reject"),
    };
    assert!(!parser.is_match(""));
    assert!(!parser.is_match("/ping"));
    assert!(matches!(parser.try_from("anything"), Err(ParseError::NoMatch)));
}

#[test]
fn borrowing_schema_still_converts_from_borrowed_view() {
    let schema = Schema {
        name: "Borrowing".to_string(),
        attrs: vec![recap_attr(r"^(?P<tag>\w+)$")],
        kind: SchemaKind::Record(RecordFields::Named(vec![field("tag", FieldType::Text)])),
        borrows: true,
    };
    let parser = match compile_schema(schema) {
        Ok(Artifact::Record(p)) => p,
        _ => panic!("borrowing schema should compile"),
    };
    let values = parser.try_from("hello").expect("matches");
    assert!(matches!(&values[0], FieldValue::Text(s) if s == "hello"));
}
