use lang_changer::country_data::{CountryDataError, CountryDb};

const TABLE: &str = r#"{"en": {"DE": "Germany", "FR": "France"}, "de": {"DE": "Deutschland"}}"#;

#[test]
fn looks_up_by_language_and_code() {
    let db = CountryDb::new(TABLE);
    assert_eq!(db.lookup("de", "DE"), Some("Deutschland"));
    assert_eq!(db.lookup("en", "FR"), Some("France"));
    assert_eq!(db.lookup("de", "FR"), None);
    assert_eq!(db.lookup("fr", "DE"), None);
}

#[test]
fn later_duplicate_key_wins() {
    let db = CountryDb::parse(r#"{"en": {"DE": "Old", "DE": "Germany"}}"#).unwrap();
    assert_eq!(db.lookup("en", "DE"), Some("Germany"));
}

#[test]
fn rejects_text_that_is_not_a_table() {
    assert_eq!(CountryDb::parse("not json").err(), Some(CountryDataError::InvalidJson));
    assert_eq!(CountryDb::parse(r#"{"en": ["DE"]}"#).err(), Some(CountryDataError::InvalidJson));
    assert_eq!(CountryDb::parse("[]").err(), Some(CountryDataError::InvalidJson));
}

#[test]
fn empty_table() {
    let db = CountryDb::parse("{}").unwrap();
    assert_eq!(db.lookup("en", "DE"), None);
}

#[test]
fn from_table_keeps_entries() {
    let db = CountryDb::from_table(vec![(
        "it".to_string(),
        vec![("IT".to_string(), "Italia".to_string())],
    )]);
    assert_eq!(db.lookup("it", "IT"), Some("Italia"));
}
