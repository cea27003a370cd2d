use lang_changer::config::{
    current_locale, first_assigned_value, lang_line, lang_setting, locale_from_conf,
    merge_env_content, merge_xprofile,
};

#[test]
fn reads_first_lang_line_trimmed() {
    assert_eq!(
        locale_from_conf("FOO=1\nLANG= fr_FR.UTF-8 \nLANG=de\n"),
        Some("fr_FR.UTF-8".to_string())
    );
    assert_eq!(locale_from_conf("LANG=de_DE.UTF-8\r\n"), Some("de_DE.UTF-8".to_string()));
    assert_eq!(locale_from_conf("LANG="), Some(String::new()));
}

#[test]
fn no_lang_line_gives_none() {
    assert_eq!(locale_from_conf(""), None);
    assert_eq!(locale_from_conf("LC_ALL=C\n lang=de\n LANG=de\n"), None);
}

#[test]
fn environment_wins_then_file_then_default() {
    assert_eq!(
        current_locale(Some("sv_SE.UTF-8".to_string()), Some("LANG=de\n".to_string())),
        "sv_SE.UTF-8"
    );
    assert_eq!(current_locale(None, Some("LANG=de\n".to_string())), "de");
    assert_eq!(current_locale(None, Some("X=1\n".to_string())), "en_US.UTF-8");
    assert_eq!(current_locale(None, None), "en_US.UTF-8");
}

#[test]
fn written_lines() {
    assert_eq!(lang_setting("ru_RU.UTF-8"), "LANG=ru_RU.UTF-8");
    assert_eq!(lang_line("ru_RU.UTF-8"), "LANG=ru_RU.UTF-8\n");
}

#[test]
fn merges_environment_file() {
    assert_eq!(
        merge_env_content(Some("A=1\nLANG=old\nB=2"), "de_DE.UTF-8"),
        "A=1\nB=2\nLANG=de_DE.UTF-8\n"
    );
    assert_eq!(merge_env_content(None, "x"), "LANG=x\n");
    assert_eq!(merge_env_content(Some(""), "x"), "LANG=x\n");
    assert_eq!(merge_env_content(Some("LANG=a\r\nLANG=b\n"), "c"), "LANG=c\n");
}

#[test]
fn read_back_after_write() {
    for locale in ["de_DE.UTF-8", " fr ", "", "x\r", "ja_JP.eucJP"] {
        let expected = Some(locale.trim().to_string());
        assert_eq!(locale_from_conf(&lang_line(locale)), expected);
        assert_eq!(locale_from_conf(&merge_env_content(Some("LANG=q\nK=v\r\n"), locale)), expected);
        assert_eq!(current_locale(None, Some(lang_line(locale))), locale.trim());
    }
}

#[test]
fn merges_shell_profile() {
    assert_eq!(
        merge_xprofile(Some("xrdb -merge ~/.Xresources\nexport LANG=fr_FR.UTF-8\n"), "de_DE.UTF-8"),
        "xrdb -merge ~/.Xresources\nexport LANG=de_DE.UTF-8\n"
    );
    assert_eq!(merge_xprofile(None, "de_DE.UTF-8"), "export LANG=de_DE.UTF-8\n");
    assert_eq!(merge_xprofile(Some("LANG=x\n"), "y"), "LANG=x\nexport LANG=y\n");
}

#[test]
fn profile_exports_what_was_written() {
    for locale in ["de_DE.UTF-8", " sr_RS ", "x\r"] {
        let text = merge_xprofile(Some("export LANG=old\r\nexport PATH=/bin\n"), locale);
        assert_eq!(first_assigned_value(&text, "export LANG="), Some(locale.trim().to_string()));
    }
}

#[test]
fn choosing_twice_changes_nothing_more() {
    for existing in [None, Some("A=1\nLANG=old\nB=2"), Some("LANG=x\r\n\nC=3\n")] {
        for locale in ["de_DE.UTF-8", " fr ", "x\r"] {
            let once = merge_env_content(existing, locale);
            assert_eq!(merge_env_content(Some(&once), locale), once);
            let once = merge_xprofile(existing, locale);
            assert_eq!(merge_xprofile(Some(&once), locale), once);
        }
    }
}
