use lang_changer::locales::{
    filter_labels, locale_for_label, offered_from_output, parse_locale_list, position_of_locale,
    sort_strings,
};

fn rows() -> Vec<(String, String)> {
    parse_locale_list("C\nPOSIX\nen_US.utf8\n  de_DE.utf8 \nC.utf8\n\nsr_RS@latin\n")
}

#[test]
fn parses_sorts_and_labels_locales() {
    assert_eq!(
        rows(),
        vec![
            ("Deutsch (Germany)  —  de_DE.utf8".to_string(), "de_DE.utf8".to_string()),
            ("English (United States)  —  en_US.utf8".to_string(), "en_US.utf8".to_string()),
            ("Српски (RS@latin)  —  sr_RS@latin".to_string(), "sr_RS@latin".to_string()),
        ]
    );
    assert!(parse_locale_list("").is_empty());
    assert!(parse_locale_list("C\nPOSIX\r\nC.utf8").is_empty());
}

#[test]
fn offered_keeps_order_and_drops_plain_locales() {
    assert_eq!(offered_from_output("b\nC\na\n \n"), vec!["b", "a"]);
    assert_eq!(offered_from_output("C.UTF-8\n"), vec!["C.UTF-8"]);
}

#[test]
fn sorts_like_std() {
    let items: Vec<String> = ["zh_CN", "af_ZA", "C.UTF-8", "ar_EG", "af_ZA", "é"]
        .iter()
        .map(|s| s.to_string())
        .collect();
    let mut expected = items.clone();
    expected.sort();
    assert_eq!(sort_strings(items), expected);
}

#[test]
fn filters_by_lower_case_query() {
    let rows = rows();
    assert_eq!(filter_labels(&rows, "DEUT"), vec!["Deutsch (Germany)  —  de_DE.utf8"]);
    assert_eq!(filter_labels(&rows, "срп"), vec!["Српски (RS@latin)  —  sr_RS@latin"]);
    assert_eq!(filter_labels(&rows, "").len(), 3);
    assert_eq!(filter_labels(&rows, "utf8").len(), 2);
    assert!(filter_labels(&rows, "klingon").is_empty());
}

#[test]
fn finds_rows() {
    let rows = rows();
    assert_eq!(position_of_locale(&rows, "en_US.utf8"), Some(1));
    assert_eq!(position_of_locale(&rows, "en_US.UTF-8"), None);
    assert_eq!(
        locale_for_label(&rows, "Deutsch (Germany)  —  de_DE.utf8"),
        Some("de_DE.utf8".to_string())
    );
    assert_eq!(locale_for_label(&rows, "Deutsch"), None);
}
