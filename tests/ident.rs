use todo_store::ident::{parse, IdError, RecordId};

fn id(table: &str, key: &str) -> RecordId {
    RecordId { table: table.to_string(), key: key.to_string() }
}

#[test]
fn format_joins_table_and_key() {
    assert_eq!(todo_store::ident::format(&id("task", "abc")), "task:abc");
}

#[test]
fn parse_reads_table_and_key() {
    assert_eq!(parse("task:abc"), Ok(id("task", "abc")));
}

#[test]
fn parse_splits_at_first_separator() {
    assert_eq!(parse("task:a:b"), Ok(id("task", "a:b")));
}

#[test]
fn round_trip_of_identifiers() {
    for (t, k) in [("task", "1"), ("todo", "xyz"), ("a", "b:c"), ("t", "k")] {
        let original = id(t, k);
        assert_eq!(parse(&todo_store::ident::format(&original)), Ok(original));
    }
}

#[test]
fn malformed_identifiers_are_rejected() {
    for text in ["", "notoken", ":missingtable", "missingkey:", ":"] {
        assert_eq!(parse(text), Err(IdError::MalformedIdentifier), "{}", text);
    }
}

#[test]
fn validity_and_equality_of_identifiers() {
    assert!(id("task", "1").is_valid());
    assert!(!id("", "1").is_valid());
    assert!(!id("ta:sk", "1").is_valid());
    assert!(!id("task", "").is_valid());
    assert!(id("task", "1").same_as(&id("task", "1")));
    assert!(!id("task", "1").same_as(&id("task", "2")));
    assert_eq!(id("task", "9").duplicate(), id("task", "9"));
}
