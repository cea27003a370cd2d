use lang_changer::names::{country_name, lang_name, locale_to_human_name};

#[test]
fn lang_name_known_codes() {
    assert_eq!(lang_name("en"), "English");
    assert_eq!(lang_name("sr"), "Српски");
    assert_eq!(lang_name("tt"), "Татар");
    assert_eq!(lang_name("ja"), "日本語");
    assert_eq!(lang_name("am"), "አማርኛ");
}

#[test]
fn lang_name_unknown_code_is_returned_unchanged() {
    assert_eq!(lang_name("xx"), "xx");
    assert_eq!(lang_name(""), "");
    assert_eq!(lang_name("EN"), "EN");
}

#[test]
fn country_name_known_and_unknown() {
    assert_eq!(country_name("GB"), "UK");
    assert_eq!(country_name("US"), "United States");
    assert_eq!(country_name("TN"), "Tunisia");
    assert_eq!(country_name("RS"), "RS");
    assert_eq!(country_name("us"), "us");
}

#[test]
fn human_name_with_region_and_codeset() {
    assert_eq!(
        locale_to_human_name("en_US.UTF-8"),
        "English (United States)  —  en_US.UTF-8"
    );
    assert_eq!(locale_to_human_name("de_DE.utf8"), "Deutsch (Germany)  —  de_DE.utf8");
}

#[test]
fn human_name_without_region() {
    assert_eq!(locale_to_human_name("de"), "Deutsch  —  de");
    assert_eq!(locale_to_human_name("eo.UTF-8"), "eo  —  eo.UTF-8");
}

#[test]
fn human_name_unknown_region_and_modifier() {
    assert_eq!(
        locale_to_human_name("sr_RS@latin"),
        "Српски (RS@latin)  —  sr_RS@latin"
    );
}

#[test]
fn human_name_empty_region_and_extra_fields() {
    assert_eq!(locale_to_human_name("fr_"), "Français  —  fr_");
    assert_eq!(locale_to_human_name("fr_CA_x.a_b"), "Français (Canada)  —  fr_CA_x.a_b");
    assert_eq!(locale_to_human_name(""), "  —  ");
}

#[test]
fn labels_tell_locales_apart() {
    let locales = ["en_US.UTF-8", "en_US.utf8", "en_US", "en", "  en", "x  en", "sr_RS@latin"];
    for a in locales {
        for b in locales {
            assert_eq!(locale_to_human_name(a) == locale_to_human_name(b), a == b, "{:?} {:?}", a, b);
        }
    }
}
