use virgin_media_exporter::error::ScrapeError;
use virgin_media_exporter::snmp::{List, TableEntry, OID};
use virgin_media_exporter::text::{parse_i64, parse_u64};

fn list(pairs: &[(&str, &str)]) -> List {
    List::new(
        pairs
            .iter()
            .map(|(k, v)| (OID::new(k), v.to_string()))
            .collect(),
    )
}

#[test]
fn scalar_lookup_returns_exact_value() {
    let l = list(&[("1.2.3.0", "42"), ("1.2.3.1.1.1", "x")]);
    assert_eq!(l.get_scalar(&OID::new("1.2.3")).unwrap(), "42");
    assert_eq!(l.parse_scalar::<u64>(&OID::new("1.2.3")).unwrap(), 42);
}

#[test]
fn scalar_lookup_missing_key() {
    let l = list(&[("1.2.3.1.0", "42")]);
    match l.get_scalar(&OID::new("1.2.3")) {
        Err(ScrapeError::ScalarNotFound { oid }) => assert_eq!(oid, "1.2.3.0"),
        other => panic!("unexpected: {:?}", other),
    }
}

#[test]
fn scalar_that_is_not_a_number() {
    let l = list(&[("1.2.3.0", "abc")]);
    match l.parse_scalar::<u64>(&OID::new("1.2.3")) {
        Err(ScrapeError::InvalidNumber { column, value }) => {
            assert_eq!(column, "1.2.3.0");
            assert_eq!(value, "abc");
        }
        other => panic!("unexpected: {:?}", other),
    }
}

#[test]
fn table_extraction_groups_columns_by_index() {
    let l = list(&[
        ("1.2.3.1.1.3", "a"),
        ("1.2.3.1.2.3", "b"),
        ("1.2.3.1.1.7", "c"),
        ("1.2.3.1.2.7", "d"),
        ("1.2.3.1.5.7", "e"),
        ("1.2.3.0", "scalar"),
        ("1.2.4.1.1.3", "other table"),
        ("1.2.31.1.1.3", "longer base"),
    ]);
    let t = l.get_table(&OID::new("1.2.3")).unwrap();
    assert_eq!(t.iter().len(), 2);
    let r3 = t.get("3").unwrap();
    assert_eq!(r3.get_column(&OID::new("1.2.3.1.1")).unwrap(), "a");
    assert_eq!(r3.get_column(&OID::new("1.2.3.1.2")).unwrap(), "b");
    assert!(r3.get_column(&OID::new("1.2.3.1.5")).is_err());
    let r7 = t.get("7").unwrap();
    assert_eq!(r7.get_column(&OID::new("1.2.3.1.1")).unwrap(), "c");
    assert_eq!(r7.get_column(&OID::new("1.2.3.1.2")).unwrap(), "d");
    assert_eq!(r7.get_column(&OID::new("1.2.3.1.5")).unwrap(), "e");
    assert!(t.get("1").is_none());
}

#[test]
fn table_extraction_keeps_composite_index() {
    let l = list(&[("1.2.3.1.4.5.6.7", "v")]);
    let t = l.get_table(&OID::new("1.2.3")).unwrap();
    assert_eq!(t.iter().len(), 1);
    let row = t.get("5.6.7").unwrap();
    assert_eq!(row.get_column(&OID::new("1.2.3.1.4")).unwrap(), "v");
}

#[test]
fn table_extraction_of_absent_table_is_empty() {
    let l = list(&[("9.9.1.1.1", "v")]);
    let t = l.get_table(&OID::new("1.2.3")).unwrap();
    assert_eq!(t.iter().len(), 0);
}

#[test]
fn table_extraction_rejects_key_without_index() {
    let l = list(&[("1.2.3.1.1.3", "a"), ("1.2.3.1.9", "b")]);
    match l.get_table(&OID::new("1.2.3")) {
        Err(ScrapeError::MalformedIndex { oid }) => assert_eq!(oid, "1.2.3.1.9"),
        other => panic!("unexpected: {:?}", other.map(|t| t.iter().len())),
    }
}

#[test]
fn later_pair_overrides_earlier() {
    let l = list(&[("1.2.3.0", "1"), ("1.2.3.0", "2")]);
    assert_eq!(l.get_scalar(&OID::new("1.2.3")).unwrap(), "2");
}

#[test]
fn column_lookup_and_parse() {
    let row = TableEntry::new(vec![
        (OID::new("1.1"), "17".to_string()),
        (OID::new("1.2"), "x".to_string()),
    ]);
    assert_eq!(row.parse_column::<u64>(&OID::new("1.1")).unwrap(), 17);
    assert!(matches!(
        row.parse_column::<u64>(&OID::new("1.2")),
        Err(ScrapeError::InvalidNumber { .. })
    ));
    match row.get_column(&OID::new("1.3")) {
        Err(ScrapeError::ColumnNotFound { column }) => assert_eq!(column, "1.3"),
        other => panic!("unexpected: {:?}", other),
    }
}

#[test]
fn unsigned_numbers_as_rust_reads_them() {
    assert_eq!(parse_u64("0"), Some(0));
    assert_eq!(parse_u64("+12"), Some(12));
    assert_eq!(parse_u64("18446744073709551615"), Some(u64::MAX));
    assert_eq!(parse_u64("18446744073709551616"), None);
    assert_eq!(parse_u64(""), None);
    assert_eq!(parse_u64("+"), None);
    assert_eq!(parse_u64("-1"), None);
    assert_eq!(parse_u64("1.5"), None);
    assert_eq!(parse_u64(" 1"), None);
}

#[test]
fn signed_numbers_as_rust_reads_them() {
    assert_eq!(parse_i64("-35"), Some(-35));
    assert_eq!(parse_i64("+7"), Some(7));
    assert_eq!(parse_i64("9223372036854775807"), Some(i64::MAX));
    assert_eq!(parse_i64("-9223372036854775808"), Some(i64::MIN));
    assert_eq!(parse_i64("9223372036854775808"), None);
    assert_eq!(parse_i64("-"), None);
    assert_eq!(parse_i64("--1"), None);
}
