use auth_service::clock::instant_text;
use auth_service::text::decimal_string;
use auth_service::values::DatabaseValue;

#[test]
fn sql_type_follows_the_cast_table() {
    assert_eq!(DatabaseValue::Null.sql_type(), "");
    assert_eq!(DatabaseValue::Str("a").sql_type(), "VARCHAR");
    assert_eq!(DatabaseValue::String("a".to_string()).sql_type(), "VARCHAR");
    assert_eq!(DatabaseValue::Text("a".to_string()).sql_type(), "TEXT");
    assert_eq!(DatabaseValue::Int("1".to_string()).sql_type(), "INTEGER");
    assert_eq!(DatabaseValue::Int64("1".to_string()).sql_type(), "BIGINT");
    assert_eq!(DatabaseValue::Float("1.5".to_string()).sql_type(), "FLOAT");
    assert_eq!(DatabaseValue::Boolean("true".to_string()).sql_type(), "BOOLEAN");
    assert_eq!(DatabaseValue::DateTime("2024-01-01".to_string()).sql_type(), "TIMESTAMP");
}

#[test]
fn text_is_the_payload_and_null_has_none() {
    assert_eq!(DatabaseValue::Null.text(), None);
    assert_eq!(DatabaseValue::Str("abc").text(), Some("abc".to_string()));
    assert_eq!(DatabaseValue::Int("42".to_string()).text(), Some("42".to_string()));
    assert!(DatabaseValue::Null.is_none());
    assert!(!DatabaseValue::Text("".to_string()).is_none());
}

#[test]
fn duplicate_keeps_variant_and_text() {
    let v = DatabaseValue::Int64("-7".to_string());
    assert_eq!(v.duplicate(), v);
}

#[test]
fn accepts_only_text_oids() {
    for oid in [25u32, 1043, 1042, 19] {
        assert!(DatabaseValue::accepts_oid(oid));
    }
    for oid in [0u32, 16, 20, 23, 1114, 2950] {
        assert!(!DatabaseValue::accepts_oid(oid));
    }
}

#[test]
fn collectors_concatenate_items() {
    let strs = vec!["ab".to_string(), "".to_string(), "c".to_string()];
    assert_eq!(DatabaseValue::from_strs(&strs), DatabaseValue::String("abc".to_string()));
    assert_eq!(
        DatabaseValue::from_bools(&vec![true, false]),
        DatabaseValue::Boolean("truefalse".to_string())
    );
    assert_eq!(
        DatabaseValue::from_i64s(&vec![12, -3, 0, i64::MIN]),
        DatabaseValue::Int64("12-30-9223372036854775808".to_string())
    );
    assert_eq!(DatabaseValue::from_strs(&vec![]), DatabaseValue::String(String::new()));
}

#[test]
fn instants_are_written_in_iso_8601() {
    assert_eq!(
        DatabaseValue::from_instants(&vec![0]),
        Some(DatabaseValue::DateTime("1970-01-01T00:00:00.000000000Z".to_string()))
    );
    assert_eq!(DatabaseValue::from_instants(&vec![0, i128::MAX]), None);
}

#[test]
fn decimal_helper() {
    assert_eq!(decimal_string(0), "0");
    assert_eq!(decimal_string(1204), "1204");
}

#[test]
fn instant_text_is_iso_8601_or_none() {
    assert_eq!(instant_text(1_500_000_000), Some("1970-01-01T00:00:01.500000000Z".to_string()));
    assert_eq!(instant_text(i128::MIN), None);
}
