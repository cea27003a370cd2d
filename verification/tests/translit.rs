use lang_changer::locales::{filter_labels, label_matches, parse_locale_list};
use lang_changer::translit::transliterate;

#[test]
fn spells_serbian_cyrillic_in_latin() {
    assert_eq!(transliterate("љубав"), "ljubav");
    assert_eq!(transliterate("српски"), "srpski");
    assert_eq!(transliterate("џеп ћуд ђак шума жаба чаша"), "džep ćud đak šuma žaba čaša");
    assert_eq!(transliterate("abc 123"), "abc 123");
    assert_eq!(transliterate("Српски"), "Сrpski");
    assert_eq!(transliterate(""), "");
}

#[test]
fn search_crosses_scripts() {
    let rows = parse_locale_list("de_DE.utf8\nsr_RS\n");
    assert_eq!(filter_labels(&rows, "srpski"), vec!["Српски (RS)  —  sr_RS"]);
    assert_eq!(filter_labels(&rows, "SRP"), vec!["Српски (RS)  —  sr_RS"]);
    assert_eq!(filter_labels(&rows, "деу"), vec!["Deutsch (Germany)  —  de_DE.utf8"]);
    assert_eq!(filter_labels(&rows, "Германија").len(), 0);
}

#[test]
fn spells_russian_and_ukrainian_letters() {
    assert_eq!(transliterate("русский"), "russkij");
    assert_eq!(transliterate("українська"), "ukrajinska");
    assert_eq!(transliterate("ёж щука эхо юг я"), "jož ščuka eho jug ja");
    assert_eq!(transliterate("ґанок єнот"), "ganok jenot");
    assert_eq!(transliterate("объём"), "objom");
}

#[test]
fn matches_lower_case_text() {
    assert!(label_matches("deutsch (germany)", ""));
    assert!(label_matches("deutsch (germany)", "germ"));
    assert!(label_matches("српски (rs)", "srpski"));
    assert!(label_matches("russkij", "русский"));
    assert!(!label_matches("deutsch", "DEUT"));
    assert!(!label_matches("deutsch", "français"));
}
